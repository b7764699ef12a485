//! The contract's rules on asset codes and memo types.
use vstd::prelude::*;
use crate::bytes::bytes_eq;

verus! {

/// An uppercase ASCII letter (`A` is 65, `Z` is 90) or an ASCII digit
/// (`0` is 48, `9` is 57).
pub open spec fn is_code_byte(b: u8) -> bool {
    (65 <= b && b <= 90) || (48 <= b && b <= 57)
}

/// An asset code is 1 to 12 uppercase ASCII letters or digits.
pub open spec fn valid_asset_code(code: Seq<u8>) -> bool {
    &&& 0 < code.len() <= 12
    &&& forall|i: int| 0 <= i < code.len() ==> is_code_byte(#[trigger] code[i])
}

/// The ASCII bytes of `text`.
pub open spec fn memo_text() -> Seq<u8> {
    seq![116u8, 101u8, 120u8, 116u8]
}

/// The ASCII bytes of `id`.
pub open spec fn memo_id() -> Seq<u8> {
    seq![105u8, 100u8]
}

/// The ASCII bytes of `hash`.
pub open spec fn memo_hash() -> Seq<u8> {
    seq![104u8, 97u8, 115u8, 104u8]
}

/// The ASCII bytes of `return`.
pub open spec fn memo_return() -> Seq<u8> {
    seq![114u8, 101u8, 116u8, 117u8, 114u8, 110u8]
}

/// The memo types the contract accepts: `text`, `id`, `hash` and `return`.
pub open spec fn valid_memo_type(memo_type: Seq<u8>) -> bool {
    ||| memo_type == memo_text()
    ||| memo_type == memo_id()
    ||| memo_type == memo_hash()
    ||| memo_type == memo_return()
}

/// Checks an asset code.
pub fn check_asset_code(code: &Vec<u8>) -> (r: bool)
    ensures
        r == valid_asset_code(code@),
{
    let n = code.len();
    if n == 0 || n > 12 {
        return false;
    }
    let mut i: usize = 0;
    while i < n
        invariant
            n == code@.len(),
            i <= n,
            forall|j: int| 0 <= j < i ==> is_code_byte(#[trigger] code@[j]),
        decreases n - i,
    {
        let b = code[i];
        if !((65 <= b && b <= 90) || (48 <= b && b <= 57)) {
            return false;
        }
        i = i + 1;
    }
    true
}

/// Checks a memo type.
pub fn check_memo_type(memo_type: &Vec<u8>) -> (r: bool)
    ensures
        r == valid_memo_type(memo_type@),
{
    let text: Vec<u8> = vec![116u8, 101u8, 120u8, 116u8];
    let id: Vec<u8> = vec![105u8, 100u8];
    let hash: Vec<u8> = vec![104u8, 97u8, 115u8, 104u8];
    let ret: Vec<u8> = vec![114u8, 101u8, 116u8, 117u8, 114u8, 110u8];
    assert(text@ =~= memo_text());
    assert(id@ =~= memo_id());
    assert(hash@ =~= memo_hash());
    assert(ret@ =~= memo_return());
    bytes_eq(memo_type, &text) || bytes_eq(memo_type, &id) || bytes_eq(memo_type, &hash)
        || bytes_eq(memo_type, &ret)
}

} // verus!
