use vstd::prelude::*;
use vstd::string::*;
use crate::rows::RowWrite;

verus! {

/// A request to rename a claim.
#[derive(Clone, Debug)]
pub struct ClaimSetNameMsg {
    pub claim_entity_id: u64,
    pub new_name: String,
}

/// The lower-case name row of a claim; names are unique across claims.
#[derive(Clone, Debug)]
pub struct ClaimLowercaseNameState {
    pub entity_id: u64,
    pub name_lowercase: String,
}

/// The name row to share with all other regions, and how.
#[derive(Clone, Debug)]
pub struct ClaimNameWrite {
    pub row: ClaimLowercaseNameState,
    pub write: RowWrite,
}

/// What `str::to_lowercase` returns for a string.
pub uninterp spec fn lowercase_of(s: Seq<char>) -> Seq<char>;

/// `str::to_lowercase`: the Unicode lower-case form of `s`. The contract
/// only names the result; what the lower-case form is goes unstated.
#[verifier::external_body]
fn to_lowercase(s: &str) -> (res: String)
    ensures
        res@ == lowercase_of(s@),
{
    s.to_lowercase()
}

/// The prefix that names given to claims by default start with.
pub open spec fn reserved_claim_name_prefix() -> Seq<char> {
    seq!['c', 'l', 'a', 'i', 'm', 'e', 'd', ' ', 'a', 'r', 'e', 'a', ' ', '(']
}

/// A lower-case name that a player may not choose.
pub open spec fn is_reserved_claim_name(name_lowercase: Seq<char>) -> bool {
    reserved_claim_name_prefix().is_prefix_of(name_lowercase)
}

/// Why a claim may not take a lower-case name, if it may not: the name is
/// reserved, or another claim (`name_owner`) has it.
pub open spec fn claim_name_error(name_lowercase: Seq<char>, claim_entity_id: u64, name_owner: Option<u64>) -> Option<Seq<char>> {
    if is_reserved_claim_name(name_lowercase) {
        Some("This name cannot be used"@)
    } else if name_owner is Some && name_owner->0 != claim_entity_id {
        Some("This name is already taken"@)
    } else {
        None
    }
}

/// A claim may always keep its own name, for instance to change its
/// capitalization, unless the name is reserved; a name held by any other
/// claim is refused as taken; a reserved name is refused whoever holds it.
pub proof fn lemma_claim_keeps_own_name(name_lowercase: Seq<char>, claim_entity_id: u64, name_owner: Option<u64>)
    ensures
        !is_reserved_claim_name(name_lowercase) && (name_owner is None || name_owner == Some(claim_entity_id))
            ==> claim_name_error(name_lowercase, claim_entity_id, name_owner) is None,
        !is_reserved_claim_name(name_lowercase) && name_owner is Some && name_owner->0 != claim_entity_id
            ==> claim_name_error(name_lowercase, claim_entity_id, name_owner) == Some("This name is already taken"@),
        is_reserved_claim_name(name_lowercase)
            ==> claim_name_error(name_lowercase, claim_entity_id, name_owner) == Some("This name cannot be used"@),
{
}

/// The reserved names are exactly those that start with "claimed area (".
pub proof fn lemma_reserved_names(name_lowercase: Seq<char>)
    ensures
        is_reserved_claim_name(name_lowercase) <==> (name_lowercase.len() >= "claimed area ("@.len()
            && name_lowercase.subrange(0, "claimed area ("@.len() as int) == "claimed area ("@),
{
    reveal_strlit("claimed area (");
    assert("claimed area ("@ =~= reserved_claim_name_prefix());
}

/// Whether a name starts with the reserved prefix.
fn has_reserved_prefix(name: &str) -> (res: bool)
    ensures
        res == is_reserved_claim_name(name@),
{
    let prefix = "claimed area (";
    proof {
        reveal_strlit("claimed area (");
    }
    assert(prefix@ =~= reserved_claim_name_prefix());
    let n = name.unicode_len();
    let m = prefix.unicode_len();
    if n < m {
        return false;
    }
    let mut i: usize = 0;
    while i < m
        invariant
            i <= m,
            m == prefix@.len(),
            n == name@.len(),
            m <= n,
            prefix@ == reserved_claim_name_prefix(),
            forall|j: int| 0 <= j < i ==> name@[j] == prefix@[j],
        decreases m - i,
    {
        if name.get_char(i) != prefix.get_char(i) {
            return false;
        }
        i = i + 1;
    }
    assert(name@.subrange(0, m as int) =~= prefix@);
    true
}

/// Screens a lower-case claim name: a name starting with the reserved
/// prefix is refused, any other is kept.
pub fn screen_claim_name(name_lowercase: String) -> (res: Result<String, String>)
    ensures
        match res {
            Ok(name) => !is_reserved_claim_name(name_lowercase@) && name@ == name_lowercase@,
            Err(e) => is_reserved_claim_name(name_lowercase@) && e@ == "This name cannot be used"@,
        },
{
    if has_reserved_prefix(name_lowercase.as_str()) {
        return Err("This name cannot be used".to_string());
    }
    Ok(name_lowercase)
}

/// The lower-case form of a requested claim name, if a player may use it.
pub fn normalize_claim_name(new_name: &str) -> (res: Result<String, String>)
    ensures
        match res {
            Ok(name) => !is_reserved_claim_name(lowercase_of(new_name@)) && name@ == lowercase_of(new_name@),
            Err(e) => is_reserved_claim_name(lowercase_of(new_name@)) && e@ == "This name cannot be used"@,
        },
{
    screen_claim_name(to_lowercase(new_name))
}

/// Decides the name row of a claim given an acceptable lower-case name,
/// the claim that holds that name now (`name_owner`) and whether the claim
/// has a name row (`claim_has_row`). A claim may keep its own name, for
/// instance to change its capitalization.
pub fn claim_name_write(
    claim_entity_id: u64,
    name_lowercase: String,
    name_owner: Option<u64>,
    claim_has_row: bool,
) -> (res: Result<ClaimNameWrite, String>)
    requires
        !is_reserved_claim_name(name_lowercase@),
    ensures
        match res {
            Ok(w) => {
                &&& claim_name_error(name_lowercase@, claim_entity_id, name_owner) is None
                &&& w.row.entity_id == claim_entity_id
                &&& w.row.name_lowercase@ == name_lowercase@
                &&& w.write == (if claim_has_row { RowWrite::Update } else { RowWrite::Insert })
            },
            Err(e) => claim_name_error(name_lowercase@, claim_entity_id, name_owner) == Some(e@),
        },
        name_owner is Some && name_owner->0 != claim_entity_id ==> (res matches Err(e) && e@ == "This name is already taken"@),
        name_owner is None || name_owner == Some(claim_entity_id) ==> res is Ok,
{
    if let Some(owner) = name_owner {
        if owner != claim_entity_id {
            return Err("This name is already taken".to_string());
        }
    }
    let write = if claim_has_row { RowWrite::Update } else { RowWrite::Insert };
    Ok(ClaimNameWrite { row: ClaimLowercaseNameState { entity_id: claim_entity_id, name_lowercase }, write })
}

/// Renames a claim. The requested name is lower-cased; a name starting
/// with "claimed area (" is refused; a name held by another claim is
/// refused; otherwise the claim's name row is updated, or created if it
/// has none. `name_owner` is the claim holding the lower-cased requested
/// name, and `claim_has_row` whether the requesting claim has a name row.
pub fn process_message_on_destination(
    request: &ClaimSetNameMsg,
    name_owner: Option<u64>,
    claim_has_row: bool,
) -> (res: Result<ClaimNameWrite, String>)
    ensures
        ({
            let name = lowercase_of(request.new_name@);
            match res {
                Ok(w) => {
                    &&& claim_name_error(name, request.claim_entity_id, name_owner) is None
                    &&& w.row.entity_id == request.claim_entity_id
                    &&& w.row.name_lowercase@ == name
                    &&& w.write == (if claim_has_row { RowWrite::Update } else { RowWrite::Insert })
                },
                Err(e) => claim_name_error(name, request.claim_entity_id, name_owner) == Some(e@),
            }
        }),
        !is_reserved_claim_name(lowercase_of(request.new_name@)) && name_owner is Some
            && name_owner->0 != request.claim_entity_id ==> (res matches Err(e) && e@ == "This name is already taken"@),
{
    let name_lowercase = normalize_claim_name(request.new_name.as_str())?;
    claim_name_write(request.claim_entity_id, name_lowercase, name_owner, claim_has_row)
}

} // verus!
