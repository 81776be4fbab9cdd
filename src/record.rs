//! Interface-address records as the kernel reports them, and the policy
//! that decides which of them is a stable global IPv6 address.

use vstd::prelude::*;

verus! {

/// Address family number of IPv6 (`AF_INET6`).
pub const AF_INET6: u8 = 10;

/// Attribute tag of the interface address itself (`IFA_ADDRESS`).
pub const IFA_ADDRESS: u16 = 1;

/// Flag bit of an address that duplicates another on its interface
/// (`IFA_F_SECONDARY`).
pub const IFA_F_SECONDARY: u8 = 0x01;

/// Flag bit of a rotating privacy-extension address (`IFA_F_TEMPORARY`).
/// The kernel gives it the same bit as `IFA_F_SECONDARY`.
pub const IFA_F_TEMPORARY: u8 = 0x01;

/// The only prefix length that the policy accepts.
pub const STABLE_PREFIX_LEN: u8 = 64;

/// Scope of globally reachable addresses.
pub const SCOPE_GLOBAL: u8 = 0;

/// One tag-length-value attribute of a record: its type tag and raw payload.
pub struct Attribute {
    pub kind: u16,
    pub payload: Vec<u8>,
}

/// The fixed fields of an interface-address record and its attributes,
/// in the order in which they were encoded.
pub struct AddrRecord {
    pub family: u8,
    pub prefix_len: u8,
    pub flags: u8,
    pub scope: u8,
    pub index: u32,
    pub attrs: Vec<Attribute>,
}

/// The five conditions under which a record is a stable candidate.
pub open spec fn accepted(r: AddrRecord) -> bool {
    &&& r.family == AF_INET6
    &&& r.prefix_len == STABLE_PREFIX_LEN
    &&& r.scope == SCOPE_GLOBAL
    &&& r.flags & IFA_F_SECONDARY == 0
    &&& r.flags & IFA_F_TEMPORARY == 0
}

/// An attribute that carries a well-formed IPv6 address.
pub open spec fn is_address_attr(a: Attribute) -> bool {
    a.kind == IFA_ADDRESS && a.payload@.len() == 16
}

/// The position of the first address attribute in `attrs`, if any.
pub open spec fn first_address_index(attrs: Seq<Attribute>) -> Option<int>
    decreases attrs.len(),
{
    if attrs.len() == 0 {
        None
    } else if is_address_attr(attrs[0]) {
        Some(0)
    } else {
        match first_address_index(attrs.drop_first()) {
            Some(i) => Some(i + 1),
            None => None,
        }
    }
}

/// The address bytes that the attribute scan yields for `attrs`.
pub open spec fn address_in(attrs: Seq<Attribute>) -> Option<Seq<u8>> {
    match first_address_index(attrs) {
        Some(i) => Some(attrs[i].payload@),
        None => None,
    }
}

/// The bytes of an optional address value.
pub open spec fn addr_view(o: Option<[u8; 16]>) -> Option<Seq<u8>> {
    match o {
        Some(a) => Some(a@),
        None => None,
    }
}

/// The address that a record contributes to the query, if any.
pub open spec fn record_address(r: AddrRecord) -> Option<Seq<u8>> {
    if accepted(r) {
        address_in(r.attrs@)
    } else {
        None
    }
}

/// `first_address_index` names exactly the first attribute that carries an
/// address.
pub proof fn lemma_first_address_index(attrs: Seq<Attribute>)
    ensures
        match first_address_index(attrs) {
            Some(i) => 0 <= i < attrs.len() && is_address_attr(attrs[i]) && forall|j: int|
                0 <= j < i ==> !is_address_attr(#[trigger] attrs[j]),
            None => forall|j: int| 0 <= j < attrs.len() ==> !is_address_attr(#[trigger] attrs[j]),
        },
    decreases attrs.len(),
{
    if attrs.len() > 0 && !is_address_attr(attrs[0]) {
        lemma_first_address_index(attrs.drop_first());
        assert forall|j: int| 1 <= j < attrs.len() implies attrs[j] == attrs.drop_first()[j - 1] by {}
    }
}

/// A record that passes the policy and whose first address attribute is at
/// position `i` contributes exactly that attribute's payload.
pub proof fn lemma_accepted_record_yields_address(r: AddrRecord, i: int)
    requires
        accepted(r),
        0 <= i < r.attrs@.len(),
        is_address_attr(r.attrs@[i]),
        forall|j: int| 0 <= j < i ==> !is_address_attr(#[trigger] r.attrs@[j]),
    ensures
        record_address(r) == Some(r.attrs@[i].payload@),
        r.attrs@[i].payload@.len() == 16,
{
    lemma_first_address_index(r.attrs@);
    match first_address_index(r.attrs@) {
        Some(k) => {
            if k < i {
                assert(!is_address_attr(r.attrs@[k]));
            } else if k > i {
                assert(!is_address_attr(r.attrs@[i]));
            }
        },
        None => {
            assert(!is_address_attr(r.attrs@[i]));
        },
    }
}

/// Whatever the scan yields is the payload of an attribute tagged as the
/// address and exactly 16 bytes long: an address attribute of any other
/// length is never the result.
pub proof fn lemma_scan_yields_full_address(attrs: Seq<Attribute>)
    ensures
        address_in(attrs) matches Some(p) ==> p.len() == 16 && exists|i: int|
            0 <= i < attrs.len() && attrs[i].kind == IFA_ADDRESS && #[trigger] attrs[i].payload@
                == p,
{
    lemma_first_address_index(attrs);
}

/// Whether the record passes the selection policy.
pub fn accept(r: &AddrRecord) -> (ok: bool)
    ensures
        ok == accepted(*r),
        r.family != AF_INET6 ==> !ok,
        r.prefix_len != STABLE_PREFIX_LEN ==> !ok,
        r.scope != SCOPE_GLOBAL ==> !ok,
        r.flags & IFA_F_SECONDARY != 0 ==> !ok,
        r.flags & IFA_F_TEMPORARY != 0 ==> !ok,
{
    r.family == AF_INET6 && r.prefix_len == STABLE_PREFIX_LEN && r.scope == SCOPE_GLOBAL
        && r.flags & IFA_F_SECONDARY == 0 && r.flags & IFA_F_TEMPORARY == 0
}

/// Copies a 16-byte payload into an address value.
fn octets_of(payload: &Vec<u8>) -> (a: [u8; 16])
    requires
        payload@.len() == 16,
    ensures
        a@ == payload@,
{
    let mut a: [u8; 16] = [0u8; 16];
    let mut i: usize = 0;
    while i < 16
        invariant
            i <= 16,
            payload@.len() == 16,
            forall|j: int| 0 <= j < i ==> a@[j] == payload@[j],
        decreases 16 - i,
    {
        a[i] = payload[i];
        i = i + 1;
    }
    assert(a@ =~= payload@);
    a
}

/// Scans the attributes front to back and returns the payload of the first
/// one that is tagged as the address and is exactly 16 bytes long. Address
/// attributes of any other length are passed over.
pub fn find_address(attrs: &Vec<Attribute>) -> (found: Option<[u8; 16]>)
    ensures
        addr_view(found) == address_in(attrs@),
        found matches Some(a) ==> exists|i: int|
            0 <= i < attrs@.len() && #[trigger] is_address_attr(attrs@[i]) && a@
                == attrs@[i].payload@,
{
    proof {
        lemma_first_address_index(attrs@);
    }
    let mut i: usize = 0;
    while i < attrs.len()
        invariant
            i <= attrs@.len(),
            forall|j: int| 0 <= j < i ==> !is_address_attr(#[trigger] attrs@[j]),
            match first_address_index(attrs@) {
                Some(k) => 0 <= k < attrs@.len() && is_address_attr(attrs@[k]) && forall|j: int|
                    0 <= j < k ==> !is_address_attr(#[trigger] attrs@[j]),
                None => forall|j: int|
                    0 <= j < attrs@.len() ==> !is_address_attr(#[trigger] attrs@[j]),
            },
        decreases attrs@.len() - i,
    {
        let at = &attrs[i];
        if at.kind == IFA_ADDRESS && at.payload.len() == 16 {
            let a = octets_of(&at.payload);
            return Some(a);
        }
        i = i + 1;
    }
    None
}

/// The address that the record contributes to the query: its first address
/// attribute when the record passes the policy, nothing otherwise. The
/// fixed fields are consulted before any attribute.
pub fn record_candidate(r: &AddrRecord) -> (found: Option<[u8; 16]>)
    ensures
        addr_view(found) == record_address(*r),
        !accepted(*r) ==> found is None,
{
    if !accept(r) {
        return None;
    }
    find_address(&r.attrs)
}

} // verus!
