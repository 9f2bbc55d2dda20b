//! Type information for the network-protocol backend's SQL types, which are
//! identified by object identifiers.
use std::sync::Arc;
use vstd::prelude::*;
use vstd::string::StringExecFns;

use crate::database::TypeInfo;
use crate::response::opt_str;

verus! {

pub const OID_CIDR: u32 = 650;

pub const OID_ARRAY_CIDR: u32 = 651;

pub const OID_INET: u32 = 869;

pub const OID_ARRAY_INET: u32 = 1041;

pub const OID_DATE: u32 = 1082;

pub const OID_TIME: u32 = 1083;

pub const OID_TIMESTAMP: u32 = 1114;

pub const OID_TIMESTAMPTZ: u32 = 1184;

pub const OID_NUMERIC: u32 = 1700;

pub const OID_UUID: u32 = 2950;

/// The object identifier of a SQL type.
#[derive(Debug, Clone, Copy, PartialEq, Eq, Structural)]
pub struct TypeId(pub u32);

/// A string that is cheap to clone: a literal, or a shared heap string.
#[derive(Debug, Clone)]
pub enum SharedStr {
    Static(&'static str),
    Arc(Arc<String>),
}

impl View for SharedStr {
    type V = Seq<char>;

    open spec fn view(&self) -> Seq<char> {
        match self {
            SharedStr::Static(s) => s@,
            SharedStr::Arc(s) => s@,
        }
    }
}

impl SharedStr {
    pub fn from_static(s: &'static str) -> (r: SharedStr)
        ensures
            r@ == s@,
    {
        SharedStr::Static(s)
    }

    pub fn from_string(s: String) -> (r: SharedStr)
        ensures
            r@ == s@,
    {
        SharedStr::Arc(Arc::new(s))
    }

    pub fn as_str(&self) -> (r: &str)
        ensures
            r@ == self@,
    {
        match self {
            SharedStr::Static(s) => s,
            SharedStr::Arc(s) => s.as_str(),
        }
    }
}

/// Whether values of the types `a` and `b` may stand for each other: the
/// network-address types INET and CIDR (and their arrays) go together, and
/// otherwise a type only with itself.
pub open spec fn oids_compatible(a: u32, b: u32) -> bool {
    ||| (a == OID_CIDR && b == OID_INET)
    ||| (a == OID_INET && b == OID_CIDR)
    ||| (a == OID_ARRAY_CIDR && b == OID_ARRAY_INET)
    ||| (a == OID_ARRAY_INET && b == OID_ARRAY_CIDR)
    ||| a == b
}

/// The optional feature that a Rust mapping of the type needs, if any.
pub open spec fn feature_gate_of(oid: u32) -> Option<Seq<char>> {
    if oid == OID_DATE || oid == OID_TIME || oid == OID_TIMESTAMP || oid == OID_TIMESTAMPTZ {
        Some("chrono"@)
    } else if oid == OID_UUID {
        Some("uuid"@)
    } else if oid == OID_NUMERIC {
        Some("bigdecimal"@)
    } else if oid == OID_CIDR || oid == OID_INET {
        Some("ipnetwork"@)
    } else {
        None
    }
}

/// The decimal digits of `n`.
pub open spec fn decimal(n: nat) -> Seq<char>
    decreases n,
{
    let digit = seq!['0', '1', '2', '3', '4', '5', '6', '7', '8', '9'][(n % 10) as int];
    if n < 10 {
        seq![digit]
    } else {
        decimal(n / 10).push(digit)
    }
}

/// Relies on the standard `Display` of `u32` (through `ToString`): the number
/// is written in decimal, with no sign or padding.
#[verifier::external_body]
fn u32_text(n: u32) -> (r: String)
    ensures
        r@ == decimal(n as nat),
{
    n.to_string()
}

/// Type information for a SQL type of the network-protocol backend.
#[derive(Debug, Clone)]
pub struct PgTypeInfo {
    id: TypeId,
    name: Option<SharedStr>,
}

impl PgTypeInfo {
    pub closed spec fn spec_oid(&self) -> u32 {
        self.id.0
    }

    pub closed spec fn spec_name(&self) -> Option<Seq<char>> {
        match self.name {
            Some(n) => Some(n@),
            None => None,
        }
    }

    /// A named type.
    pub fn new(id: TypeId, name: SharedStr) -> (r: PgTypeInfo)
        ensures
            r.spec_oid() == id.0,
            r.spec_name() == Some(name@),
    {
        PgTypeInfo { id, name: Some(name) }
    }

    /// A type known only by its object identifier.
    pub fn with_oid(oid: u32) -> (r: PgTypeInfo)
        ensures
            r.spec_oid() == oid,
            r.spec_name() is None,
    {
        PgTypeInfo { id: TypeId(oid), name: None }
    }

    /// The name of the type, or `<UNKNOWN>`.
    pub fn sql_type_name(&self) -> (r: &str)
        ensures
            r@ == match self.spec_name() {
                Some(n) => n,
                None => "<UNKNOWN>"@,
            },
    {
        match &self.name {
            Some(n) => n.as_str(),
            None => "<UNKNOWN>",
        }
    }

    /// The optional feature that a Rust mapping of this type needs.
    pub fn type_feature_gate(&self) -> (r: Option<&'static str>)
        ensures
            opt_str(r) == feature_gate_of(self.spec_oid()),
    {
        let oid = self.id.0;
        if oid == OID_DATE || oid == OID_TIME || oid == OID_TIMESTAMP || oid == OID_TIMESTAMPTZ {
            Some("chrono")
        } else if oid == OID_UUID {
            Some("uuid")
        } else if oid == OID_NUMERIC {
            Some("bigdecimal")
        } else if oid == OID_CIDR || oid == OID_INET {
            Some("ipnetwork")
        } else {
            None
        }
    }

    /// The object identifier.
    pub fn oid(&self) -> (r: u32)
        ensures
            r == self.spec_oid(),
    {
        self.id.0
    }

    /// The name of the type, or `OID` and its number when it has none.
    pub fn to_string(&self) -> (r: String)
        ensures
            r@ == match self.spec_name() {
                Some(n) => n,
                None => "OID "@ + decimal(self.spec_oid() as nat),
            },
    {
        match &self.name {
            Some(n) => n.as_str().to_owned(),
            None => {
                let mut text = "OID ".to_owned();
                let digits = u32_text(self.id.0);
                text.append(digits.as_str());
                text
            },
        }
    }
}

impl TypeInfo for PgTypeInfo {
    open spec fn spec_compatible(&self, other: &Self) -> bool {
        oids_compatible(self.spec_oid(), other.spec_oid())
    }

    fn compatible(&self, other: &Self) -> (r: bool) {
        let (a, b) = (self.id.0, other.id.0);
        if (a == OID_CIDR && b == OID_INET) || (a == OID_INET && b == OID_CIDR) || (a
            == OID_ARRAY_CIDR && b == OID_ARRAY_INET) || (a == OID_ARRAY_INET && b
            == OID_ARRAY_CIDR) {
            true
        } else {
            a == b
        }
    }
}

/// Compatibility is symmetric; INET and CIDR, and their arrays, are
/// compatible with each other; two types that are otherwise distinct are not.
pub proof fn lemma_compatible(a: PgTypeInfo, b: PgTypeInfo)
    ensures
        a.spec_compatible(&b) == b.spec_compatible(&a),
        a.spec_compatible(&a),
        (a.spec_oid() == OID_INET && b.spec_oid() == OID_CIDR) ==> a.spec_compatible(&b),
        (a.spec_oid() == OID_ARRAY_INET && b.spec_oid() == OID_ARRAY_CIDR) ==> a.spec_compatible(
            &b,
        ),
        (a.spec_oid() != b.spec_oid() && !(a.spec_oid() == OID_INET && b.spec_oid() == OID_CIDR)
            && !(a.spec_oid() == OID_CIDR && b.spec_oid() == OID_INET) && !(a.spec_oid()
            == OID_ARRAY_INET && b.spec_oid() == OID_ARRAY_CIDR) && !(a.spec_oid()
            == OID_ARRAY_CIDR && b.spec_oid() == OID_ARRAY_INET)) ==> !a.spec_compatible(&b),
{
}

} // verus!
