//! What follows from the rules of the asset ledger, over every ledger.
use crate::nft::msg::ExecuteMsgView;
use crate::nft::rules::{
    approve_for_all_rule, execute_rule, mint_rule, minted, newest, owner_of, transfer_rule,
};
use crate::nft::store::{fetch, operator_key, Ledger};
use crate::nft::types::{lemma_token_key_injective, token_key};
use vstd::bytes::{lemma_auto_spec_u64_to_from_le_bytes, spec_u64_to_le_bytes};
use vstd::prelude::*;
use vstd::utf8::{encode_utf8, encode_utf8_decode_utf8};

verus! {

/// Whether the UTF-8 form of a text has a length that eight bytes can hold,
/// as that of every text in memory has.
pub open spec fn fits(text: Seq<char>) -> bool {
    encode_utf8(text).len() <= u64::MAX
}

/// Two pairs of an owner and an operator with the same key are the same
/// pair.
pub proof fn lemma_operator_key_injective(
    sender_a: Seq<char>,
    operator_a: Seq<char>,
    sender_b: Seq<char>,
    operator_b: Seq<char>,
)
    requires
        fits(sender_a),
        fits(operator_a),
        fits(sender_b),
        fits(operator_b),
        operator_key(sender_a, operator_a) == operator_key(sender_b, operator_b),
    ensures
        sender_a == sender_b,
        operator_a == operator_b,
{
    lemma_auto_spec_u64_to_from_le_bytes();
    let key_a = operator_key(sender_a, operator_a);
    let key_b = operator_key(sender_b, operator_b);
    let sa = encode_utf8(sender_a);
    let sb = encode_utf8(sender_b);
    let oa = encode_utf8(operator_a);
    let ob = encode_utf8(operator_b);
    assert(spec_u64_to_le_bytes(sa.len() as u64) =~= key_a.subrange(0, 8));
    assert(spec_u64_to_le_bytes(sb.len() as u64) =~= key_b.subrange(0, 8));
    assert(sa.len() == sb.len());
    let mid = 8 + sa.len() as int;
    assert(sa =~= key_a.subrange(8, mid));
    assert(sb =~= key_b.subrange(8, mid));
    assert(spec_u64_to_le_bytes(oa.len() as u64) =~= key_a.subrange(mid, mid + 8));
    assert(spec_u64_to_le_bytes(ob.len() as u64) =~= key_b.subrange(mid, mid + 8));
    assert(oa.len() == ob.len());
    assert(oa =~= key_a.subrange(mid + 8, mid + 8 + oa.len()));
    assert(ob =~= key_b.subrange(mid + 8, mid + 8 + ob.len()));
    encode_utf8_decode_utf8(sender_a);
    encode_utf8_decode_utf8(sender_b);
    encode_utf8_decode_utf8(operator_a);
    encode_utf8_decode_utf8(operator_b);
}

/// Naming or dismissing an operator says nothing of any other pair of an
/// owner and an operator.
pub proof fn law_operator_naming_touches_one_pair(
    ledger: Ledger,
    sender: Seq<char>,
    operator: Seq<char>,
    approved: bool,
    other_sender: Seq<char>,
    other_operator: Seq<char>,
)
    requires
        fits(sender),
        fits(operator),
        fits(other_sender),
        fits(other_operator),
        sender != operator,
        other_sender != sender || other_operator != operator,
    ensures
        ({
            let after = approve_for_all_rule(ledger, sender, operator, approved).ledger;
            &&& fetch(after.operators, operator_key(sender, operator)) == Some(approved)
            &&& fetch(after.operators, operator_key(other_sender, other_operator)) == fetch(
                ledger.operators,
                operator_key(other_sender, other_operator),
            )
        }),
{
    if operator_key(other_sender, other_operator) == operator_key(sender, operator) {
        lemma_operator_key_injective(other_sender, other_operator, sender, operator);
    }
}

/// A transfer that goes through gives the asset to its receiver and leaves
/// the owner of every other asset as it was.
pub proof fn law_transfer_moves_one_asset(ledger: Ledger, from: Seq<char>, to: Seq<char>, id: u128, other: u128)
    requires
        transfer_rule(ledger, from, to, id).result is Ok,
    ensures
        owner_of(ledger, id) == Some(from),
        owner_of(transfer_rule(ledger, from, to, id).ledger, id) == Some(to),
        other != id ==> owner_of(transfer_rule(ledger, from, to, id).ledger, other) == owner_of(
            ledger,
            other,
        ),
{
    if other != id && token_key(other) == token_key(id) {
        lemma_token_key_injective(other, id);
    }
}

/// A change that is refused leaves the ledger as it was.
pub proof fn law_refused_change_changes_nothing(ledger: Ledger, sender: Seq<char>, msg: ExecuteMsgView)
    requires
        execute_rule(ledger, sender, msg).result is Err,
    ensures
        execute_rule(ledger, sender, msg).ledger == ledger,
{
}

/// Minting gives out a number that no asset had before and hands the new
/// asset to its owner; every asset minted before stays minted, with the owner
/// it had.
pub proof fn law_mint_gives_a_fresh_number(
    ledger: Ledger,
    owner: Seq<char>,
    name: Seq<char>,
    uri: Seq<char>,
    other: u128,
)
    requires
        mint_rule(ledger, owner, name, uri).result is Ok,
    ensures
        ({
            let after = mint_rule(ledger, owner, name, uri).ledger;
            &&& newest(after) is Some
            &&& !minted(ledger, newest(after)->0)
            &&& minted(after, newest(after)->0)
            &&& owner_of(after, newest(after)->0) == Some(owner)
            &&& minted(ledger, other) ==> minted(after, other) && owner_of(after, other) == owner_of(
                ledger,
                other,
            )
        }),
{
    let after = mint_rule(ledger, owner, name, uri).ledger;
    let id = newest(after)->0;
    if minted(ledger, other) && token_key(other) == token_key(id) {
        lemma_token_key_injective(other, id);
    }
}

} // verus!
