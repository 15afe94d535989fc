//! Principals (the identifiers of users and canisters on the Internet
//! Computer) held as their bytes, with their textual form from `candid`.
use vstd::prelude::*;

verus! {

/// The most bytes a principal has.
pub const MAX_PRINCIPAL_BYTES: usize = 29;

/// The textual form that `candid::Principal::to_text` gives the principal
/// with these bytes.
pub uninterp spec fn principal_text(bytes: Seq<u8>) -> Seq<char>;

/// What `candid::Principal::from_text` makes of `text`: the bytes of the
/// principal, or `None` when the text is refused.
pub uninterp spec fn principal_parse(text: Seq<char>) -> Option<Seq<u8>>;

/// `s` with ASCII capitals made small, as `str::to_ascii_lowercase` does.
pub open spec fn ascii_lowercase(s: Seq<char>) -> Seq<char> {
    s.map_values(|c: char| if 'A' <= c <= 'Z' { ((c as u32) + 32) as char } else { c })
}

/// Calls `candid::Principal::from_slice` and `Principal::to_text`.
/// The contract claims that the text is the one `principal_text` names for
/// these bytes, and that `Principal::from_text` reads it back to the same
/// bytes (the text is lower case, with the checksum of the bytes, as the
/// parser wants it); `from_slice` panics beyond 29 bytes, which `requires`
/// rules out.
#[verifier::external_body]
fn candid_principal_text(bytes: &[u8]) -> (r: String)
    requires
        bytes@.len() <= MAX_PRINCIPAL_BYTES,
    ensures
        r@ == principal_text(bytes@),
        principal_parse(r@) == Some(bytes@),
{
    candid::Principal::from_slice(bytes).to_text()
}

/// Calls `candid::Principal::from_text` and takes the accepted principal's
/// bytes with `Principal::as_slice`. The contract claims that the result is
/// the one `principal_parse` names for the text, and two facts the source
/// shows: an accepted principal has at most 29 bytes, and its textual form is
/// the given text in lower case (the parser refuses any other spelling).
#[verifier::external_body]
fn candid_principal_from_text(text: &str) -> (r: Option<Vec<u8>>)
    ensures
        r matches Some(b) ==> Some(b@) == principal_parse(text@),
        r is None ==> principal_parse(text@) is None,
        r matches Some(b) ==> b@.len() <= MAX_PRINCIPAL_BYTES && principal_text(b@)
            == ascii_lowercase(text@),
{
    match candid::Principal::from_text(text) {
        Ok(p) => Some(p.as_slice().to_vec()),
        Err(_) => None,
    }
}

/// A principal: at most 29 bytes.
pub struct PrincipalId {
    bytes: Vec<u8>,
}

impl View for PrincipalId {
    type V = Seq<u8>;

    closed spec fn view(&self) -> Seq<u8> {
        self.bytes@
    }
}

impl PrincipalId {
    #[verifier::type_invariant]
    spec fn fits(self) -> bool {
        self.bytes@.len() <= MAX_PRINCIPAL_BYTES
    }

    /// The principal with these bytes, or `None` beyond 29 bytes.
    pub fn from_bytes(bytes: Vec<u8>) -> (r: Option<PrincipalId>)
        ensures
            r matches Some(p) ==> p@ == bytes@,
            r is None <==> bytes@.len() > MAX_PRINCIPAL_BYTES,
    {
        if bytes.len() <= MAX_PRINCIPAL_BYTES {
            Some(PrincipalId { bytes })
        } else {
            None
        }
    }

    /// The anonymous principal, the single byte 4.
    pub fn anonymous() -> (r: PrincipalId)
        ensures
            r@ == seq![4u8],
    {
        let mut bytes: Vec<u8> = Vec::new();
        bytes.push(4u8);
        PrincipalId { bytes }
    }

    /// The principal's bytes.
    pub fn as_bytes(&self) -> (r: &Vec<u8>)
        ensures
            r@ == self@,
    {
        &self.bytes
    }

    /// The same principal.
    pub fn duplicate(&self) -> (r: PrincipalId)
        ensures
            r@ == self@,
    {
        proof {
            use_type_invariant(self);
        }
        PrincipalId { bytes: self.bytes.clone() }
    }

    /// Whether the two principals are the same.
    pub fn same_as(&self, other: &PrincipalId) -> (r: bool)
        ensures
            r == (self@ == other@),
    {
        let a = &self.bytes;
        let b = &other.bytes;
        assert(self@ == a@ && other@ == b@);
        if a.len() != b.len() {
            return false;
        }
        let mut i: usize = 0;
        while i < a.len()
            invariant
                self@ == a@,
                other@ == b@,
                a@.len() == b@.len(),
                i <= a@.len(),
                forall|k: int| 0 <= k < i ==> a@[k] == b@[k],
            decreases a@.len() - i,
        {
            if a[i] != b[i] {
                assert(a@[i as int] != b@[i as int]);
                return false;
            }
            i = i + 1;
        }
        assert(a@ =~= b@);
        true
    }

    /// The principal's textual form, which `from_text` reads back to the same
    /// principal.
    pub fn to_text(&self) -> (r: String)
        ensures
            r@ == principal_text(self@),
            principal_parse(r@) == Some(self@),
    {
        proof {
            use_type_invariant(self);
        }
        candid_principal_text(self.bytes.as_slice())
    }

    /// The principal that `text` spells, or `None` when it spells none.
    pub fn from_text(text: &str) -> (r: Option<PrincipalId>)
        ensures
            r matches Some(p) ==> Some(p@) == principal_parse(text@) && principal_text(p@)
                == ascii_lowercase(text@),
            r is None <==> principal_parse(text@) is None,
    {
        match candid_principal_from_text(text) {
            Some(bytes) => Some(PrincipalId { bytes }),
            None => None,
        }
    }
}

} // verus!
