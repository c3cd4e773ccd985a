//! Stake arithmetic, decimal text, and the derivation of room keys.

use vstd::prelude::*;
use vstd::string::*;
use crate::encoding::{base64_text, json_string_bytes, to_base64, to_json_bytes};
use crate::error::{ContractError, ErrorView};

verus! {

/// The stake of one contestant: half of what is left of the prize pool once
/// the fee has been set aside for both contestants, rounded down.
pub open spec fn min_required_stake(prize_pool: nat, fee: nat) -> nat
    recommends
        prize_pool >= 2 * fee,
{
    ((prize_pool - 2 * fee) / 2) as nat
}

/// What the winner of a room gains on top of the stake that is released: half
/// of the prize pool, less the fee.
pub open spec fn winner_gain(prize_pool: nat, fee: nat) -> nat
    recommends
        prize_pool >= 2 * fee,
{
    (prize_pool / 2 - fee) as nat
}

/// The winner gains exactly what one contestant staked, so a settlement moves
/// the loser's stake to the winner and nothing else.
pub proof fn lemma_winner_gain_is_stake(prize_pool: nat, fee: nat)
    requires
        prize_pool >= 2 * fee,
    ensures
        winner_gain(prize_pool, fee) == min_required_stake(prize_pool, fee),
        2 * min_required_stake(prize_pool, fee) + 2 * fee <= prize_pool,
{
}

/// Computes the stake each contestant has to put up for a room with the given
/// prize pool. A prize pool smaller than twice the fee is reported as
/// [`ContractError::InsufficientPrizePool`].
pub fn cal_min_required(prize_pool: u128, fee: u128) -> (r: Result<u128, ContractError>)
    ensures
        prize_pool >= 2 * fee ==> r is Ok && r->Ok_0 == min_required_stake(
            prize_pool as nat,
            fee as nat,
        ),
        prize_pool < 2 * fee ==> r is Err && r->Err_0@ == (ErrorView::InsufficientPrizePool {
            prize_pool: prize_pool as nat,
            fee: fee as nat,
        }),
{
    let both_fees: Option<u128> = fee.checked_mul(2);
    match both_fees {
        Some(fees) => {
            if prize_pool >= fees {
                Ok((prize_pool - fees) / 2)
            } else {
                Err(ContractError::InsufficientPrizePool { prize_pool, fee })
            }
        },
        None => Err(ContractError::InsufficientPrizePool { prize_pool, fee }),
    }
}

/// The character that stands for a decimal digit.
pub open spec fn digit_char(d: nat) -> char
    recommends
        d < 10,
{
    if d == 0 {
        '0'
    } else if d == 1 {
        '1'
    } else if d == 2 {
        '2'
    } else if d == 3 {
        '3'
    } else if d == 4 {
        '4'
    } else if d == 5 {
        '5'
    } else if d == 6 {
        '6'
    } else if d == 7 {
        '7'
    } else if d == 8 {
        '8'
    } else {
        '9'
    }
}

/// Whether a character is a decimal digit.
pub open spec fn is_digit(c: char) -> bool {
    exists|d: nat| d < 10 && c == #[trigger] digit_char(d)
}

/// A number in decimal, most significant digit first, without leading zeros.
pub open spec fn decimal_text(n: nat) -> Seq<char>
    decreases n,
{
    if n < 10 {
        seq![digit_char(n)]
    } else {
        decimal_text(n / 10).push(digit_char(n % 10))
    }
}

/// Decimal text is never empty and holds digits only.
pub proof fn lemma_decimal_text_digits(n: nat)
    ensures
        decimal_text(n).len() >= 1,
        n >= 10 ==> decimal_text(n).len() >= 2,
        forall|i: int| 0 <= i < decimal_text(n).len() ==> is_digit(#[trigger] decimal_text(n)[i]),
    decreases n,
{
    if n < 10 {
        assert(is_digit(digit_char(n)));
    } else {
        lemma_decimal_text_digits(n / 10);
        assert(is_digit(digit_char(n % 10)));
    }
}

/// Two numbers with the same decimal text are the same number.
pub proof fn lemma_decimal_text_injective(n: nat, m: nat)
    requires
        decimal_text(n) == decimal_text(m),
    ensures
        n == m,
    decreases n,
{
    lemma_decimal_text_digits(n);
    lemma_decimal_text_digits(m);
    if n < 10 {
        assert(m < 10);
        assert(decimal_text(n)[0] == digit_char(n));
        assert(decimal_text(m)[0] == digit_char(m));
        assert(n == m);
    } else {
        assert(m >= 10);
        let tn = decimal_text(n / 10);
        let tm = decimal_text(m / 10);
        assert(decimal_text(n).drop_last() =~= tn);
        assert(decimal_text(m).drop_last() =~= tm);
        assert(decimal_text(n).last() == digit_char(n % 10));
        assert(decimal_text(m).last() == digit_char(m % 10));
        lemma_decimal_text_injective(n / 10, m / 10);
        assert(n / 10 == m / 10);
        assert(n % 10 == m % 10);
    }
}

fn digit_str(d: u128) -> (s: &'static str)
    requires
        d < 10,
    ensures
        s@ == seq![digit_char(d as nat)],
{
    proof {
        reveal_strlit("0");
        reveal_strlit("1");
        reveal_strlit("2");
        reveal_strlit("3");
        reveal_strlit("4");
        reveal_strlit("5");
        reveal_strlit("6");
        reveal_strlit("7");
        reveal_strlit("8");
        reveal_strlit("9");
    }
    let s: &'static str = if d == 0 {
        "0"
    } else if d == 1 {
        "1"
    } else if d == 2 {
        "2"
    } else if d == 3 {
        "3"
    } else if d == 4 {
        "4"
    } else if d == 5 {
        "5"
    } else if d == 6 {
        "6"
    } else if d == 7 {
        "7"
    } else if d == 8 {
        "8"
    } else {
        "9"
    };
    assert(s@ =~= seq![digit_char(d as nat)]);
    s
}

/// Writes a number in decimal.
pub fn decimal_string(n: u128) -> (s: String)
    ensures
        s@ == decimal_text(n as nat),
    decreases n,
{
    if n < 10 {
        String::from_str(digit_str(n))
    } else {
        let mut s: String = decimal_string(n / 10);
        s.append(digit_str(n % 10));
        assert(s@ =~= decimal_text(n as nat));
        s
    }
}

/// The text a room key is derived from: the length of the first address in
/// decimal, a colon, and the two addresses one after the other. The length
/// in front tells where the first address ends, so that no two pairs of
/// addresses share a text.
pub open spec fn room_key_text(first: Seq<char>, second: Seq<char>) -> Seq<char> {
    decimal_text(first.len()) + seq![':'] + first + second
}

/// The key of the room of an ordered pair of contestants.
pub open spec fn room_key(first: Seq<char>, second: Seq<char>) -> Seq<char> {
    base64_text(json_string_bytes(room_key_text(first, second)))
}

/// Different ordered pairs of addresses have different key texts: the pair
/// can be read back from the text.
pub proof fn lemma_room_key_text_injective(
    first: Seq<char>,
    second: Seq<char>,
    other_first: Seq<char>,
    other_second: Seq<char>,
)
    requires
        room_key_text(first, second) == room_key_text(other_first, other_second),
    ensures
        first == other_first,
        second == other_second,
{
    let d = decimal_text(first.len());
    let e = decimal_text(other_first.len());
    let t = room_key_text(first, second);
    let u = room_key_text(other_first, other_second);
    lemma_decimal_text_digits(first.len());
    lemma_decimal_text_digits(other_first.len());
    assert(!is_digit(':')) by {
        assert forall|k: nat| k < 10 implies ':' != #[trigger] digit_char(k) by {}
    }
    assert(t[d.len() as int] == ':');
    assert(u[e.len() as int] == ':');
    assert(forall|i: int| 0 <= i < d.len() ==> t[i] == d[i]);
    assert(forall|i: int| 0 <= i < e.len() ==> u[i] == e[i]);
    if d.len() < e.len() {
        assert(u[d.len() as int] == e[d.len() as int]);
        assert(is_digit(e[d.len() as int]));
        assert(false);
    }
    if e.len() < d.len() {
        assert(t[e.len() as int] == d[e.len() as int]);
        assert(is_digit(d[e.len() as int]));
        assert(false);
    }
    assert(d =~= e) by {
        assert forall|i: int| 0 <= i < d.len() implies d[i] == e[i] by {
            assert(t[i] == d[i]);
            assert(u[i] == e[i]);
        }
    }
    lemma_decimal_text_injective(first.len(), other_first.len());
    let start: int = d.len() as int + 1;
    let middle: int = start + first.len();
    assert(first =~= t.subrange(start, middle));
    assert(other_first =~= u.subrange(start, middle));
    assert(second =~= t.subrange(middle, t.len() as int));
    assert(other_second =~= u.subrange(middle, u.len() as int));
}

/// Derives the key of the room of two contestants. The key depends on the
/// order of the two addresses: the room of `(a, b)` is not the room of
/// `(b, a)`.
pub fn create_key_hash(con_1: String, con_2: String) -> (key: String)
    ensures
        key@ == room_key(con_1@, con_2@),
{
    let length: usize = con_1.as_str().unicode_len();
    let mut text: String = decimal_string(length as u128);
    text.append(":");
    text.append(con_1.as_str());
    text.append(con_2.as_str());
    proof {
        reveal_strlit(":");
        assert(":"@ =~= seq![':']);
        assert(text@ =~= room_key_text(con_1@, con_2@));
    }
    let bytes: Option<Vec<u8>> = to_json_bytes(text.as_str());
    to_base64(bytes.unwrap())
}

} // verus!
