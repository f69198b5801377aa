//! Decimal numbers and the small pieces of text that identify peers and channels.
use vstd::prelude::*;
use vstd::string::StringExecFns;

verus! {

/// The decimal digit `d` as a character.
pub open spec fn digit_char(d: nat) -> char {
    ('0' as u32 + d) as char
}

/// The decimal notation of `n`: most significant digit first, no leading zeros, `"0"` for zero.
pub open spec fn decimal_digits(n: nat) -> Seq<char>
    decreases n,
{
    if n < 10 {
        seq![digit_char(n)]
    } else {
        decimal_digits(n / 10).push(digit_char(n % 10))
    }
}

/// Two numbers with the same decimal notation are equal.
pub proof fn decimal_is_injective(a: nat, b: nat)
    requires
        decimal_digits(a) == decimal_digits(b),
    ensures
        a == b,
    decreases a,
{
    let da = decimal_digits(a);
    let db = decimal_digits(b);
    decimal_is_nonempty(a);
    decimal_is_nonempty(b);
    assert(da.last() == db.last());
    assert(a % 10 == b % 10);
    if a < 10 && b >= 10 {
        decimal_is_nonempty(b / 10);
        assert(db.len() == decimal_digits(b / 10).len() + 1);
    } else if a >= 10 && b < 10 {
        decimal_is_nonempty(a / 10);
        assert(da.len() == decimal_digits(a / 10).len() + 1);
    } else if a >= 10 && b >= 10 {
        assert(da.drop_last() =~= decimal_digits(a / 10));
        assert(db.drop_last() =~= decimal_digits(b / 10));
        decimal_is_injective(a / 10, b / 10);
    }
}

/// A decimal notation has at least one digit.
proof fn decimal_is_nonempty(n: nat)
    ensures
        decimal_digits(n).len() >= 1,
        decimal_digits(n).last() == digit_char(n % 10),
{
}

/// One decimal digit as text.
fn digit_text(d: u64) -> (r: &'static str)
    requires
        d < 10,
    ensures
        r@ == seq![digit_char(d as nat)],
{
    proof {
        reveal_strlit("0");
        reveal_strlit("1");
        reveal_strlit("2");
        reveal_strlit("3");
        reveal_strlit("4");
        reveal_strlit("5");
        reveal_strlit("6");
        reveal_strlit("7");
        reveal_strlit("8");
        reveal_strlit("9");
    }
    let r = if d == 0 {
        "0"
    } else if d == 1 {
        "1"
    } else if d == 2 {
        "2"
    } else if d == 3 {
        "3"
    } else if d == 4 {
        "4"
    } else if d == 5 {
        "5"
    } else if d == 6 {
        "6"
    } else if d == 7 {
        "7"
    } else if d == 8 {
        "8"
    } else {
        "9"
    };
    assert(r@ =~= seq![digit_char(d as nat)]);
    r
}

/// The decimal notation of `n`.
pub fn decimal(n: u64) -> (r: String)
    ensures
        r@ == decimal_digits(n as nat),
    decreases n,
{
    if n < 10 {
        digit_text(n).to_owned()
    } else {
        let mut text = decimal(n / 10);
        text.append(digit_text(n % 10));
        assert(text@ =~= decimal_digits(n as nat));
        text
    }
}

/// The name under which a peer is reported: its address, or, where the address cannot be
/// had, the reason for that behind `GET_ID_ERROR: `.
pub fn address_id(address: Result<String, String>) -> (id: String)
    ensures
        match address {
            Ok(text) => id@ == text@,
            Err(reason) => id@ == "GET_ID_ERROR: "@ + reason@,
        },
{
    match address {
        Ok(text) => text,
        Err(reason) => "GET_ID_ERROR: ".to_owned().concat(reason.as_str()),
    }
}

/// The name under which a process on the same machine is reported: `PID(n)`, or, where the
/// process id cannot be had, the reason for that behind `GET_ID_ERROR: `.
pub fn process_id(pid: Result<u32, String>) -> (id: String)
    ensures
        match pid {
            Ok(n) => id@ == "PID("@ + decimal_digits(n as nat) + ")"@,
            Err(reason) => id@ == "GET_ID_ERROR: "@ + reason@,
        },
{
    match pid {
        Ok(n) => "PID(".to_owned().concat(decimal(n as u64).as_str()).concat(")"),
        Err(reason) => "GET_ID_ERROR: ".to_owned().concat(reason.as_str()),
    }
}

/// The number that a row of decimal digits stands for, the most significant one first.
pub open spec fn decimal_value(digits: Seq<char>) -> int
    decreases digits.len(),
{
    if digits.len() == 0 {
        0
    } else {
        10 * decimal_value(digits.drop_last()) + (digits.last() as int - '0' as int)
    }
}

/// A decimal notation stands for its number, is made of digits, and has no needless zero in front.
pub proof fn digits_stand_for_number(n: nat)
    ensures
        decimal_value(decimal_digits(n)) == n,
        decimal_digits(n).len() >= 1,
        forall|i: int|
            0 <= i < decimal_digits(n).len() ==> '0' <= #[trigger] decimal_digits(n)[i] <= '9',
        n >= 1 ==> decimal_digits(n)[0] != '0',
    decreases n,
{
    reveal_with_fuel(decimal_value, 2);
    if n >= 10 {
        digits_stand_for_number(n / 10);
        let front = decimal_digits(n / 10);
        assert(decimal_digits(n).drop_last() =~= front);
        assert forall|i: int| 0 <= i < decimal_digits(n).len() implies '0'
            <= #[trigger] decimal_digits(n)[i] <= '9' by {
            if i < front.len() {
                assert(decimal_digits(n)[i] == front[i]);
            }
        }
        assert(decimal_digits(n)[0] == front[0]);
    } else {
        assert(decimal_digits(n).drop_last() =~= seq![]);
    }
}

/// What is written can be read again: the text is a row of decimal digits that stands for the
/// number, and it does not begin with a zero unless it is one.
pub proof fn decimal_reads_back(n: u64, text: String)
    requires
        call_ensures(decimal, (n,), text),
    ensures
        decimal_value(text@) == n,
        text@.len() >= 1,
        forall|i: int| 0 <= i < text@.len() ==> '0' <= #[trigger] text@[i] <= '9',
        text@.len() > 1 ==> text@[0] != '0',
{
    digits_stand_for_number(n as nat);
}

/// A peer goes by its address where that can be had, and by nothing else.
pub proof fn address_is_the_name(address: Result<String, String>, id: String)
    requires
        call_ensures(address_id, (address,), id),
    ensures
        address is Ok ==> id@ == address->Ok_0@,
        address is Err ==> id@ == "GET_ID_ERROR: "@ + address->Err_0@,
{
}

/// A process goes by its number, in parentheses, where that can be had.
pub proof fn process_number_is_the_name(pid: Result<u32, String>, id: String, digits: String)
    requires
        call_ensures(process_id, (pid,), id),
        pid is Ok ==> call_ensures(decimal, (pid->Ok_0 as u64,), digits),
    ensures
        pid is Ok ==> id@ == "PID("@ + digits@ + ")"@,
        pid is Ok ==> decimal_value(digits@) == pid->Ok_0,
        pid is Err ==> id@ == "GET_ID_ERROR: "@ + pid->Err_0@,
{
    if pid is Ok {
        decimal_reads_back(pid->Ok_0 as u64, digits);
    }
}

} // verus!
