use vstd::prelude::*;
use vstd::string::StringExecFns;

verus! {

/// Minimum number of digits of the sequence number in a file name.
pub const SEQUENCE_DIGITS: u64 = 4;

/// The decimal digit character of `d`.
pub open spec fn digit_char(d: nat) -> char {
    if d == 0 {
        '0'
    } else if d == 1 {
        '1'
    } else if d == 2 {
        '2'
    } else if d == 3 {
        '3'
    } else if d == 4 {
        '4'
    } else if d == 5 {
        '5'
    } else if d == 6 {
        '6'
    } else if d == 7 {
        '7'
    } else if d == 8 {
        '8'
    } else {
        '9'
    }
}

/// Decimal notation of `n`, without leading zeros.
pub open spec fn decimal(n: nat) -> Seq<char>
    decreases n,
{
    if n < 10 {
        seq![digit_char(n)]
    } else {
        decimal(n / 10).push(digit_char(n % 10))
    }
}

/// Decimal notation of `n`, padded with leading zeros to `width` digits.
pub open spec fn zero_padded(n: nat, width: nat) -> Seq<char> {
    let digits = decimal(n);
    if digits.len() < width {
        Seq::new((width - digits.len()) as nat, |i: int| '0') + digits
    } else {
        digits
    }
}

/// Name of the image file that frame number `index` is written to.
pub open spec fn frame_file_name_spec(folder: Seq<char>, index: nat) -> Seq<char> {
    folder + "/frame_"@ + zero_padded(index, SEQUENCE_DIGITS as nat) + ".jpg"@
}

fn digit_str(d: u64) -> (r: &'static str)
    requires
        d < 10,
    ensures
        r@ == seq![digit_char(d as nat)],
{
    proof {
        reveal_strlit("0");
        reveal_strlit("1");
        reveal_strlit("2");
        reveal_strlit("3");
        reveal_strlit("4");
        reveal_strlit("5");
        reveal_strlit("6");
        reveal_strlit("7");
        reveal_strlit("8");
        reveal_strlit("9");
    }
    if d == 0 {
        "0"
    } else if d == 1 {
        "1"
    } else if d == 2 {
        "2"
    } else if d == 3 {
        "3"
    } else if d == 4 {
        "4"
    } else if d == 5 {
        "5"
    } else if d == 6 {
        "6"
    } else if d == 7 {
        "7"
    } else if d == 8 {
        "8"
    } else {
        "9"
    }
}

fn decimal_len(n: u64) -> (r: u64)
    ensures
        r == decimal(n as nat).len(),
    decreases n,
{
    if n < 10 {
        1
    } else {
        let k = decimal_len(n / 10);
        assert(k <= 19) by {
            reveal_with_fuel(pow10, 20);
            lemma_decimal_len_below((n / 10) as nat, 19);
        }
        k + 1
    }
}

/// `decimal(n)` has at most `k` digits when `n < 10^k`.
proof fn lemma_decimal_len_below(n: nat, k: nat)
    requires
        k >= 1,
        n < pow10(k),
    ensures
        decimal(n).len() <= k,
    decreases k,
{
    if n >= 10 {
        if k == 1 {
            assert(pow10(0) == 1);
        }
        let p = pow10((k - 1) as nat);
        assert(n / 10 < p) by (nonlinear_arith)
            requires
                n < 10 * p,
        ;
        lemma_decimal_len_below(n / 10, (k - 1) as nat);
    }
}

spec fn pow10(k: nat) -> nat
    decreases k,
{
    if k == 0 {
        1
    } else {
        10 * pow10((k - 1) as nat)
    }
}

fn append_decimal(s: &mut String, n: u64)
    ensures
        final(s)@ == old(s)@ + decimal(n as nat),
    decreases n,
{
    if n >= 10 {
        append_decimal(s, n / 10);
    }
    s.append(digit_str(n % 10));
    assert(final(s)@ =~= old(s)@ + decimal(n as nat));
}

/// Name of the image file that frame number `sequence_index` is written to:
/// `<folder>/frame_<index>.jpg`, with the index in decimal and padded with
/// zeros to at least four digits.
pub fn frame_file_name(output_folder: &str, sequence_index: u64) -> (r: String)
    ensures
        r@ == frame_file_name_spec(output_folder@, sequence_index as nat),
{
    let mut s = String::from_str(output_folder);
    s.append("/frame_");
    let prefix = Ghost(s@);
    let digits = decimal_len(sequence_index);
    let pad_len: u64 = if digits < SEQUENCE_DIGITS {
        SEQUENCE_DIGITS - digits
    } else {
        0
    };
    let mut pad: u64 = 0;
    while pad < pad_len
        invariant
            pad <= pad_len,
            s@ == prefix@ + Seq::new(pad as nat, |i: int| '0'),
        decreases pad_len - pad,
    {
        s.append("0");
        proof {
            reveal_strlit("0");
        }
        assert(s@ =~= prefix@ + Seq::new((pad + 1) as nat, |i: int| '0'));
        pad = pad + 1;
    }
    append_decimal(&mut s, sequence_index);
    s.append(".jpg");
    assert(s@ =~= frame_file_name_spec(output_folder@, sequence_index as nat));
    s
}

} // verus!
