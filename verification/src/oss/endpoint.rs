//! The host name of the object storage service in a region.
use vstd::prelude::*;
use vstd::string::*;

verus! {

/// The endpoint host of a region: `oss-{region}.aliyuncs.com`.
pub open spec fn endpoint_host(region_id: Seq<char>) -> Seq<char> {
    "oss-"@ + region_id + ".aliyuncs.com"@
}

/// The object storage endpoint of one region.
pub struct Endpoint {
    region_id: String,
}

impl View for Endpoint {
    type V = Seq<char>;

    /// The region id.
    closed spec fn view(&self) -> Seq<char> {
        self.region_id@
    }
}

impl Endpoint {
    /// The endpoint of the region `region_id`.
    pub fn new(region_id: &str) -> (r: Endpoint)
        ensures
            r@ == region_id@,
    {
        Endpoint { region_id: String::from_str(region_id) }
    }

    /// The host name of this endpoint.
    pub fn value(&self) -> (r: String)
        ensures
            r@ == endpoint_host(self@),
    {
        Self::of(self.region_id.as_str())
    }

    /// The host name of the endpoint of the region `region_id`.
    pub fn of(region_id: &str) -> (r: String)
        ensures
            r@ == endpoint_host(region_id@),
    {
        let mut r = String::from_str("oss-");
        r.append(region_id);
        r.append(".aliyuncs.com");
        r
    }
}

/// The host of an endpoint does not depend on whether it was built as a
/// value first: for `e = Endpoint::new(r)`, the host `e.value()` gives is the
/// host `Endpoint::of(r)` gives (the arguments are those functions' results,
/// as their contracts describe them).
pub proof fn lemma_value_matches_of(region_id: Seq<char>, e: Endpoint, value: Seq<char>, of: Seq<
    char,
>)
    requires
        e@ == region_id,
        value == endpoint_host(e@),
        of == endpoint_host(region_id),
    ensures
        value == of,
{
}

/// Distinct regions have distinct endpoint hosts: the host determines the
/// region.
pub proof fn lemma_host_determines_region(a: Seq<char>, b: Seq<char>)
    requires
        endpoint_host(a) == endpoint_host(b),
    ensures
        a == b,
{
    reveal_strlit("oss-");
    reveal_strlit(".aliyuncs.com");
    let h = endpoint_host(a);
    assert("oss-"@.len() == 4 && ".aliyuncs.com"@.len() == 13);
    assert(h.len() == a.len() + 17 && h.len() == b.len() + 17);
    assert(h.subrange(4, 4 + a.len() as int) =~= a);
    assert(endpoint_host(b).subrange(4, 4 + b.len() as int) =~= b);
}

} // verus!
