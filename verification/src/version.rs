use vstd::prelude::*;

verus! {

/// The family of OpenGL API that a context implements.
#[derive(Debug, Copy, Clone, PartialEq, Eq, Structural)]
pub enum Api {
    /// Desktop OpenGL.
    Gl,
    /// OpenGL ES.
    GlEs,
}

/// A version of an OpenGL API: the API, the major and the minor number.
#[derive(Debug, Copy, Clone, PartialEq, Eq, Structural)]
pub struct Version(pub Api, pub u8, pub u8);

/// Versions are only comparable within one API; within it they are ordered by
/// major number, then by minor number.
pub open spec fn version_at_least(v: Version, other: Version) -> bool {
    &&& v.0 == other.0
    &&& (v.1 > other.1 || (v.1 == other.1 && v.2 >= other.2))
}

impl Version {
    /// Whether `self >= other` in the partial order of versions: both versions
    /// belong to the same API and `self` is not older than `other`.
    pub fn at_least(&self, other: &Version) -> (r: bool)
        ensures
            r == version_at_least(*self, *other),
    {
        self.0 == other.0 && (self.1 > other.1 || (self.1 == other.1 && self.2 >= other.2))
    }
}

/// Within one API, versions are ordered lexicographically by (major, minor):
/// a greater major number is newer, a smaller one is older, and with equal
/// major numbers the minor numbers decide.
pub proof fn law_version_order_is_lexicographic(v: Version, other: Version)
    requires
        v.0 == other.0,
    ensures
        v.1 > other.1 ==> version_at_least(v, other),
        v.1 < other.1 ==> !version_at_least(v, other),
        v.1 == other.1 ==> (version_at_least(v, other) <==> v.2 >= other.2),
{
}

/// A version is at least itself.
pub proof fn lemma_version_at_least_reflexive(v: Version)
    ensures
        version_at_least(v, v),
{
}

/// The order of versions is transitive.
pub proof fn lemma_version_at_least_transitive(a: Version, b: Version, c: Version)
    requires
        version_at_least(a, b),
        version_at_least(b, c),
    ensures
        version_at_least(a, c),
{
}

/// Versions of two different APIs are never comparable.
pub proof fn lemma_version_apis_incomparable(a: Version, b: Version)
    requires
        a.0 != b.0,
    ensures
        !version_at_least(a, b),
        !version_at_least(b, a),
{
}

} // verus!
