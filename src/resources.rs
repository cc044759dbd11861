//! Regions, the region/shard override tables and the derived endpoints.
use crate::text::{concat, str_eq};
use vstd::prelude::*;
use vstd::string::*;

verus! {

/// A region code; `Invalid` stands for every text that names no region.
#[derive(Clone, Copy, Debug, PartialEq, Eq, Structural, Hash)]
pub enum Region {
    Na,
    Eu,
    Latam,
    Br,
    Ap,
    Kr,
    Pbe,
    Invalid,
}

/// The region that a code names, matched exactly and case-sensitively.
pub open spec fn region_of(code: Seq<char>) -> Region {
    if code == "na"@ {
        Region::Na
    } else if code == "eu"@ {
        Region::Eu
    } else if code == "latam"@ {
        Region::Latam
    } else if code == "br"@ {
        Region::Br
    } else if code == "ap"@ {
        Region::Ap
    } else if code == "kr"@ {
        Region::Kr
    } else if code == "pbe"@ {
        Region::Pbe
    } else {
        Region::Invalid
    }
}

/// The code of a region.
pub open spec fn code_of(r: Region) -> Seq<char> {
    match r {
        Region::Na => "na"@,
        Region::Eu => "eu"@,
        Region::Latam => "latam"@,
        Region::Br => "br"@,
        Region::Ap => "ap"@,
        Region::Kr => "kr"@,
        Region::Pbe => "pbe"@,
        Region::Invalid => "invalid"@,
    }
}

/// The seven region codes are exactly the texts that name a region; every
/// other text, the empty text and `"invalid"` among them, names none.
pub proof fn lemma_valid_region_codes(code: Seq<char>)
    ensures
        region_of(code) != Region::Invalid <==> (code == "na"@ || code == "eu"@ || code == "latam"@
            || code == "br"@ || code == "ap"@ || code == "kr"@ || code == "pbe"@),
        region_of("invalid"@) == Region::Invalid,
        region_of(Seq::<char>::empty()) == Region::Invalid,
{
    lemma_code_lengths();
}

/// A region's code names that region again.
pub proof fn lemma_code_round_trip(r: Region)
    requires
        r != Region::Invalid,
    ensures
        region_of(code_of(r)) == r,
{
    lemma_code_lengths();
}

proof fn lemma_code_lengths()
    ensures
        "na"@.len() == 2 && "na"@[0] == 'n',
        "eu"@.len() == 2 && "eu"@[0] == 'e',
        "br"@.len() == 2 && "br"@[0] == 'b',
        "ap"@.len() == 2 && "ap"@[0] == 'a',
        "kr"@.len() == 2 && "kr"@[0] == 'k',
        "latam"@.len() == 5,
        "pbe"@.len() == 3,
        "invalid"@.len() == 7,
{
    reveal_strlit("na");
    reveal_strlit("eu");
    reveal_strlit("latam");
    reveal_strlit("br");
    reveal_strlit("ap");
    reveal_strlit("kr");
    reveal_strlit("pbe");
    reveal_strlit("invalid");
}

impl Region {
    /// Whether `region` is one of the seven region codes.
    pub fn is_valid_region(region: &str) -> (r: bool)
        ensures
            r == (region_of(region@) != Region::Invalid),
    {
        Region::from(region) != Region::Invalid
    }

    /// The region that `region` names, or `Invalid`.
    pub fn from(region: &str) -> (r: Self)
        ensures
            r == region_of(region@),
    {
        if str_eq(region, "na") {
            Region::Na
        } else if str_eq(region, "eu") {
            Region::Eu
        } else if str_eq(region, "latam") {
            Region::Latam
        } else if str_eq(region, "br") {
            Region::Br
        } else if str_eq(region, "ap") {
            Region::Ap
        } else if str_eq(region, "kr") {
            Region::Kr
        } else if str_eq(region, "pbe") {
            Region::Pbe
        } else {
            Region::Invalid
        }
    }

    /// The region's code; `"invalid"` for `Invalid`.
    pub fn to_string(&self) -> (r: String)
        ensures
            r@ == code_of(*self),
    {
        match self {
            Region::Na => String::from_str("na"),
            Region::Eu => String::from_str("eu"),
            Region::Latam => String::from_str("latam"),
            Region::Br => String::from_str("br"),
            Region::Ap => String::from_str("ap"),
            Region::Kr => String::from_str("kr"),
            Region::Pbe => String::from_str("pbe"),
            Region::Invalid => String::from_str("invalid"),
        }
    }
}

/// What a list of (key, value) pairs maps `k` to: the value of the first pair
/// with key `k`.
pub open spec fn lookup(entries: Seq<(Region, Region)>, k: Region) -> Option<Region>
    decreases entries.len(),
{
    if entries.len() == 0 {
        None
    } else if entries[0].0 == k {
        Some(entries[0].1)
    } else {
        lookup(entries.drop_first(), k)
    }
}

/// A fixed mapping from regions to regions.
#[derive(Debug)]
pub struct OverrideTable {
    pub entries: Vec<(Region, Region)>,
}

impl OverrideTable {
    /// No region stands as the key of two entries.
    pub open spec fn keys_unique(&self) -> bool {
        forall|i: int, j: int|
            0 <= i < j < self.entries@.len() ==> #[trigger] self.entries@[i].0
                != #[trigger] self.entries@[j].0
    }

    /// What the table maps `k` to.
    pub open spec fn get_spec(&self, k: Region) -> Option<Region> {
        lookup(self.entries@, k)
    }

    /// What the table maps `k` to, if anything.
    pub fn get(&self, k: Region) -> (r: Option<Region>)
        ensures
            r == self.get_spec(k),
    {
        let n = self.entries.len();
        let mut i: usize = 0;
        assert(self.entries@.subrange(0, n as int) =~= self.entries@);
        while i < n
            invariant
                i <= n,
                n == self.entries@.len(),
                lookup(self.entries@, k) == lookup(self.entries@.subrange(i as int, n as int), k),
            decreases n - i,
        {
            let ghost rest = self.entries@.subrange(i as int, n as int);
            assert(rest.drop_first() =~= self.entries@.subrange(i + 1, n as int));
            let (key, value) = self.entries[i];
            if key == k {
                return Some(value);
            }
            i += 1;
        }
        None
    }
}

/// The shard that a region's endpoints use in place of the region itself.
pub open spec fn default_region_shard(r: Region) -> Option<Region> {
    match r {
        Region::Latam => Some(Region::Na),
        Region::Br => Some(Region::Na),
        _ => None,
    }
}

/// The region that a region's endpoints use in place of the region itself.
pub open spec fn default_shard_region(r: Region) -> Option<Region> {
    match r {
        Region::Latam => Some(Region::Na),
        Region::Pbe => Some(Region::Na),
        _ => None,
    }
}

/// `https://127.0.0.1:{port}`
pub open spec fn local_endpoint(port: Seq<char>) -> Seq<char> {
    "https://127.0.0.1:"@ + port
}

/// `https://pd.{shard}.a.pvp.net`
pub open spec fn primary_endpoint(shard: Seq<char>) -> Seq<char> {
    "https://pd."@ + shard + ".a.pvp.net"@
}

/// `https://glz-{region}-1.{shard}.a.pvp.net`
pub open spec fn gateway_endpoint(region: Seq<char>, shard: Seq<char>) -> Seq<char> {
    "https://glz-"@ + region + "-1."@ + shard + ".a.pvp.net"@
}

/// `https://shared.{shard}.a.pvp.net`
pub open spec fn shared_endpoint(shard: Seq<char>) -> Seq<char> {
    "https://shared."@ + shard + ".a.pvp.net"@
}

/// The four base URLs of one (port, region, shard).
#[derive(Debug)]
pub struct EndpointSet {
    pub local: String,
    pub primary: String,
    pub gateway: String,
    pub shared: String,
}

/// The four base URLs, as texts.
pub open spec fn endpoints_spec(port: Seq<char>, region: Seq<char>, shard: Seq<char>) -> (
    Seq<char>,
    Seq<char>,
    Seq<char>,
    Seq<char>,
) {
    (
        local_endpoint(port),
        primary_endpoint(shard),
        gateway_endpoint(region, shard),
        shared_endpoint(shard),
    )
}

impl EndpointSet {
    pub open spec fn view(&self) -> (Seq<char>, Seq<char>, Seq<char>, Seq<char>) {
        (self.local@, self.primary@, self.gateway@, self.shared@)
    }
}

fn local_base(port: &str) -> (r: String)
    ensures
        r@ == local_endpoint(port@),
{
    concat("https://127.0.0.1:", port)
}

fn primary_base(shard: &str) -> (r: String)
    ensures
        r@ == primary_endpoint(shard@),
{
    let mut s = concat("https://pd.", shard);
    s.append(".a.pvp.net");
    s
}

fn gateway_base(region: &str, shard: &str) -> (r: String)
    ensures
        r@ == gateway_endpoint(region@, shard@),
{
    let mut s = concat("https://glz-", region);
    s.append("-1.");
    s.append(shard);
    s.append(".a.pvp.net");
    s
}

fn shared_base(shard: &str) -> (r: String)
    ensures
        r@ == shared_endpoint(shard@),
{
    let mut s = concat("https://shared.", shard);
    s.append(".a.pvp.net");
    s
}

/// The four base URLs of a port, a region code and a shard code.
pub fn derive_endpoints(port: &str, region: &str, shard: &str) -> (r: EndpointSet)
    ensures
        r@ == endpoints_spec(port@, region@, shard@),
{
    EndpointSet {
        local: local_base(port),
        primary: primary_base(shard),
        gateway: gateway_base(region, shard),
        shared: shared_base(shard),
    }
}

/// Deriving the endpoints depends on the port, region and shard alone: two
/// derivations from the same three texts give the same four URLs.
pub proof fn lemma_endpoints_deterministic(
    port: Seq<char>,
    region: Seq<char>,
    shard: Seq<char>,
    a: EndpointSet,
    b: EndpointSet,
)
    requires
        a@ == endpoints_spec(port, region, shard),
        b@ == endpoints_spec(port, region, shard),
    ensures
        a@ == b@,
{
}

/// The override tables and the port, region and shard that the endpoints are
/// derived from.
#[derive(Debug)]
pub struct Resources {
    pub region_shard_override: OverrideTable,
    pub shard_region_override: OverrideTable,
    pub port: String,
    pub region: String,
    pub shard: String,
}

impl Resources {
    pub open spec fn port_spec(&self) -> Seq<char> {
        self.port@
    }

    pub open spec fn region_spec(&self) -> Seq<char> {
        self.region@
    }

    pub open spec fn shard_spec(&self) -> Seq<char> {
        self.shard@
    }

    /// The override tables hold the default overrides.
    pub open spec fn has_default_overrides(&self) -> bool {
        &&& forall|k: Region| #[trigger]
            self.region_shard_override.get_spec(k) == default_region_shard(k)
        &&& forall|k: Region| #[trigger]
            self.shard_region_override.get_spec(k) == default_shard_region(k)
    }

    /// The default override tables, and empty port, region and shard.
    pub fn new() -> (r: Self)
        ensures
            r.has_default_overrides(),
            r.region_shard_override.keys_unique(),
            r.shard_region_override.keys_unique(),
            r.port_spec() == Seq::<char>::empty(),
            r.region_spec() == Seq::<char>::empty(),
            r.shard_spec() == Seq::<char>::empty(),
    {
        let mut rs: Vec<(Region, Region)> = Vec::new();
        rs.push((Region::Latam, Region::Na));
        rs.push((Region::Br, Region::Na));
        let mut sr: Vec<(Region, Region)> = Vec::new();
        sr.push((Region::Latam, Region::Na));
        sr.push((Region::Pbe, Region::Na));
        let r = Resources {
            region_shard_override: OverrideTable { entries: rs },
            shard_region_override: OverrideTable { entries: sr },
            port: String::new(),
            region: String::new(),
            shard: String::new(),
        };
        proof {
            let s1 = r.region_shard_override.entries@;
            assert(s1.drop_first().drop_first() =~= Seq::<(Region, Region)>::empty());
            let s2 = r.shard_region_override.entries@;
            assert(s2.drop_first().drop_first() =~= Seq::<(Region, Region)>::empty());
            assert forall|k: Region| #[trigger]
                r.region_shard_override.get_spec(k) == default_region_shard(k) by {
                reveal_with_fuel(lookup, 3);
            }
            assert forall|k: Region| #[trigger]
                r.shard_region_override.get_spec(k) == default_shard_region(k) by {
                reveal_with_fuel(lookup, 3);
            }
        }
        r
    }

    /// Sets the port, region and shard that the endpoints are derived from.
    pub fn update_endpoints(&mut self, port: String, region: String, shard: String)
        ensures
            final(self).port_spec() == port@,
            final(self).region_spec() == region@,
            final(self).shard_spec() == shard@,
            final(self).region_shard_override == old(self).region_shard_override,
            final(self).shard_region_override == old(self).shard_region_override,
    {
        self.port = port;
        self.region = region;
        self.shard = shard;
    }

    /// `https://127.0.0.1:{port}`
    pub fn get_base_local_endpoint(&self) -> (r: String)
        ensures
            r@ == local_endpoint(self.port_spec()),
    {
        local_base(self.port.as_str())
    }

    /// `https://pd.{shard}.a.pvp.net`
    pub fn get_base_endpoint(&self) -> (r: String)
        ensures
            r@ == primary_endpoint(self.shard_spec()),
    {
        primary_base(self.shard.as_str())
    }

    /// `https://glz-{region}-1.{shard}.a.pvp.net`
    pub fn get_base_glz_endpoint(&self) -> (r: String)
        ensures
            r@ == gateway_endpoint(self.region_spec(), self.shard_spec()),
    {
        gateway_base(self.region.as_str(), self.shard.as_str())
    }

    /// `https://shared.{shard}.a.pvp.net`
    pub fn get_base_shared_endpoint(&self) -> (r: String)
        ensures
            r@ == shared_endpoint(self.shard_spec()),
    {
        shared_base(self.shard.as_str())
    }

    /// All four base URLs at once.
    pub fn endpoints(&self) -> (r: EndpointSet)
        ensures
            r@ == endpoints_spec(self.port_spec(), self.region_spec(), self.shard_spec()),
    {
        derive_endpoints(self.port.as_str(), self.region.as_str(), self.shard.as_str())
    }
}

} // verus!
