use vstd::prelude::*;

verus! {

/// The one host triple for which container images are known to build.
pub open spec fn supported_host() -> Seq<char> {
    "x86_64-unknown-linux-gnu"@
}

/// Every catalog triple needs an emulator to run its binaries, except the two
/// that the supported host executes directly.
pub open spec fn needs_emulation_spec(target: Seq<char>) -> bool {
    target != "i686-unknown-linux-gnu"@ && target != "x86_64-unknown-linux-gnu"@
}

/// The triples that the standard catalog lists, in order.
pub open spec fn standard_triples() -> Seq<Seq<char>> {
    seq![
        "aarch64-unknown-linux-gnu"@,
        "armv7-unknown-linux-gnueabihf"@,
        "i686-unknown-linux-gnu"@,
        "mips-unknown-linux-gnu"@,
        "mips64-unknown-linux-gnuabi64"@,
        "mips64el-unknown-linux-gnuabi64"@,
        "mipsel-unknown-linux-gnu"@,
        "powerpc-unknown-linux-gnu"@,
        "powerpc64-unknown-linux-gnu"@,
        "powerpc64le-unknown-linux-gnu"@,
        "s390x-unknown-linux-gnu"@,
        "x86_64-unknown-linux-gnu"@,
    ]
}

/// Exact comparison of two triples (or any two texts).
pub fn text_eq(a: &str, b: &str) -> (r: bool)
    ensures
        r == (a@ == b@),
{
    let x: String = a.to_owned();
    let y: String = b.to_owned();
    x == y
}

/// Whether `list` holds the text `t`.
pub fn list_contains(list: &Vec<String>, t: &str) -> (r: bool)
    ensures
        r == list.deep_view().contains(t@),
{
    let mut i: usize = 0;
    while i < list.len()
        invariant
            i <= list.len(),
            forall|j: int| 0 <= j < i ==> list.deep_view()[j] != t@,
        decreases list.len() - i,
    {
        if text_eq(list[i].as_str(), t) {
            assert(list.deep_view()[i as int] == t@);
            return true;
        }
        i += 1;
    }
    proof {
        assert forall|j: int| 0 <= j < list.deep_view().len() implies list.deep_view()[j] != t@ by {}
    }
    false
}

/// Whether `host` is the supported host.
pub fn is_supported_host(host: &str) -> (r: bool)
    ensures
        r == (host@ == supported_host()),
{
    text_eq(host, "x86_64-unknown-linux-gnu")
}

/// Whether running binaries built for `target` needs the emulator.
pub fn needs_emulation(target: &str) -> (r: bool)
    ensures
        r == needs_emulation_spec(target@),
{
    !text_eq(target, "i686-unknown-linux-gnu") && !text_eq(target, "x86_64-unknown-linux-gnu")
}

/// The set of triples eligible for containerized builds. Membership is the
/// only thing that makes a target containerizable.
pub struct TargetCatalog {
    pub triples: Vec<String>,
}

impl View for TargetCatalog {
    type V = Seq<Seq<char>>;

    open spec fn view(&self) -> Seq<Seq<char>> {
        self.triples.deep_view()
    }
}

impl TargetCatalog {
    /// A catalog of the given triples.
    pub fn new(triples: Vec<String>) -> (r: TargetCatalog)
        ensures
            r@ == triples.deep_view(),
    {
        TargetCatalog { triples }
    }

    /// The catalog of the targets that have container images.
    pub fn standard() -> (r: TargetCatalog)
        ensures
            r@ == standard_triples(),
    {
        let mut v: Vec<String> = Vec::new();
        v.push("aarch64-unknown-linux-gnu".to_owned());
        v.push("armv7-unknown-linux-gnueabihf".to_owned());
        v.push("i686-unknown-linux-gnu".to_owned());
        v.push("mips-unknown-linux-gnu".to_owned());
        v.push("mips64-unknown-linux-gnuabi64".to_owned());
        v.push("mips64el-unknown-linux-gnuabi64".to_owned());
        v.push("mipsel-unknown-linux-gnu".to_owned());
        v.push("powerpc-unknown-linux-gnu".to_owned());
        v.push("powerpc64-unknown-linux-gnu".to_owned());
        v.push("powerpc64le-unknown-linux-gnu".to_owned());
        v.push("s390x-unknown-linux-gnu".to_owned());
        v.push("x86_64-unknown-linux-gnu".to_owned());
        assert(v.deep_view() =~= standard_triples());
        TargetCatalog { triples: v }
    }

    /// Whether `target` is in the catalog.
    pub fn contains(&self, target: &str) -> (r: bool)
        ensures
            r == self@.contains(target@),
    {
        list_contains(&self.triples, target)
    }
}

} // verus!
