//! The sequence builder: renders an ordered list of code numbers into the
//! canonical control-sequence string `ESC '[' codes 'm'`, and into the bare
//! `;`-joined fragment form from which extended-colour code groups are
//! composed.

use vstd::prelude::*;

verus! {

/// Rendering a code list with no codes at all is rejected: an escape
/// sequence without codes has no defined terminal meaning.
#[derive(Debug, Clone, Copy, PartialEq, Eq, Structural)]
pub enum BuildError {
    InvalidArgument,
}

/// The decimal digit character for a value below ten.
pub open spec fn digit_char(d: nat) -> char {
    if d == 0 {
        '0'
    } else if d == 1 {
        '1'
    } else if d == 2 {
        '2'
    } else if d == 3 {
        '3'
    } else if d == 4 {
        '4'
    } else if d == 5 {
        '5'
    } else if d == 6 {
        '6'
    } else if d == 7 {
        '7'
    } else if d == 8 {
        '8'
    } else {
        '9'
    }
}

/// The decimal rendering of a number: most significant digit first, no
/// leading zeros, no sign.
pub open spec fn dec_chars(n: nat) -> Seq<char>
    decreases n,
{
    if n < 10 {
        seq![digit_char(n)]
    } else {
        dec_chars(n / 10).push(digit_char(n % 10))
    }
}

/// The fragment form of a code list: each code in decimal, joined by `;`.
pub open spec fn fragment_of(codes: Seq<u8>) -> Seq<char>
    decreases codes.len(),
{
    if codes.len() == 0 {
        seq![]
    } else if codes.len() == 1 {
        dec_chars(codes[0] as nat)
    } else {
        fragment_of(codes.drop_last()) + seq![';'] + dec_chars(codes.last() as nat)
    }
}

/// The two characters that open every control sequence.
pub open spec fn seq_prefix() -> Seq<char> {
    seq![crate::esc_char(), '[']
}

/// The character that closes every control sequence.
pub open spec fn seq_suffix() -> Seq<char> {
    seq!['m']
}

/// The full control-sequence form of a code list.
pub open spec fn sequence_of(codes: Seq<u8>) -> Seq<char> {
    seq_prefix() + fragment_of(codes) + seq_suffix()
}

/// The one-character string for a decimal digit.
fn digit_str(d: u8) -> (r: &'static str)
    requires
        d < 10,
    ensures
        r@ == seq![digit_char(d as nat)],
{
    if d == 0 {
        proof {
            reveal_strlit("0");
            assert("0"@ =~= seq![digit_char(0)]);
        }
        "0"
    } else if d == 1 {
        proof {
            reveal_strlit("1");
            assert("1"@ =~= seq![digit_char(1)]);
        }
        "1"
    } else if d == 2 {
        proof {
            reveal_strlit("2");
            assert("2"@ =~= seq![digit_char(2)]);
        }
        "2"
    } else if d == 3 {
        proof {
            reveal_strlit("3");
            assert("3"@ =~= seq![digit_char(3)]);
        }
        "3"
    } else if d == 4 {
        proof {
            reveal_strlit("4");
            assert("4"@ =~= seq![digit_char(4)]);
        }
        "4"
    } else if d == 5 {
        proof {
            reveal_strlit("5");
            assert("5"@ =~= seq![digit_char(5)]);
        }
        "5"
    } else if d == 6 {
        proof {
            reveal_strlit("6");
            assert("6"@ =~= seq![digit_char(6)]);
        }
        "6"
    } else if d == 7 {
        proof {
            reveal_strlit("7");
            assert("7"@ =~= seq![digit_char(7)]);
        }
        "7"
    } else if d == 8 {
        proof {
            reveal_strlit("8");
            assert("8"@ =~= seq![digit_char(8)]);
        }
        "8"
    } else {
        proof {
            reveal_strlit("9");
            assert("9"@ =~= seq![digit_char(9)]);
        }
        "9"
    }
}

/// Appends the decimal rendering of `n` to `out`.
fn push_decimal(out: &mut String, n: u8)
    ensures
        final(out)@ == old(out)@ + dec_chars(n as nat),
{
    if n >= 100 {
        out.append(digit_str(n / 100));
    }
    if n >= 10 {
        out.append(digit_str((n / 10) % 10));
    }
    out.append(digit_str(n % 10));
    proof {
        let m = n as nat;
        if n < 10 {
            assert(final(out)@ =~= old(out)@ + dec_chars(m));
        } else if n < 100 {
            assert(dec_chars(m) == dec_chars(m / 10) + seq![digit_char(m % 10)]);
            assert(m / 10 < 10);
            assert(final(out)@ =~= old(out)@ + dec_chars(m));
        } else {
            assert(dec_chars(m) == dec_chars(m / 10) + seq![digit_char(m % 10)]);
            assert(m / 10 >= 10);
            assert(dec_chars(m / 10) == dec_chars(m / 10 / 10) + seq![digit_char(m / 10 % 10)]);
            assert(m / 10 / 10 == m / 100);
            assert(m / 100 < 10);
            assert(final(out)@ =~= old(out)@ + dec_chars(m));
        }
    }
}

/// Appends the fragment form of a non-empty code list to `out`.
fn push_fragment(out: &mut String, codes: &Vec<u8>)
    requires
        codes@.len() > 0,
    ensures
        final(out)@ == old(out)@ + fragment_of(codes@),
{
    push_decimal(out, codes[0]);
    proof {
        assert(codes@.take(1) =~= seq![codes@[0]]);
    }
    let mut i: usize = 1;
    while i < codes.len()
        invariant
            1 <= i <= codes@.len(),
            out@ == old(out)@ + fragment_of(codes@.take(i as int)),
        decreases codes@.len() - i,
    {
        proof {
            reveal_strlit(";");
            assert(";"@ =~= seq![';']);
        }
        out.append(";");
        push_decimal(out, codes[i]);
        proof {
            let taken = codes@.take(i + 1);
            assert(taken.drop_last() =~= codes@.take(i as int));
            assert(taken.last() == codes@[i as int]);
            assert(out@ =~= old(out)@ + fragment_of(taken));
        }
        i = i + 1;
    }
    proof {
        assert(codes@.take(codes@.len() as int) =~= codes@);
    }
}

/// Renders a code list known to be non-empty into a full control sequence;
/// the predefined catalogue is computed through this.
pub(crate) fn render_codes(codes: &Vec<u8>) -> (s: String)
    requires
        codes@.len() > 0,
    ensures
        s@ == sequence_of(codes@),
{
    let mut s = String::new();
    proof {
        reveal_strlit("\u{1B}[");
        assert("\u{1B}["@ =~= seq_prefix());
        reveal_strlit("m");
        assert("m"@ =~= seq_suffix());
    }
    s.append("\u{1B}[");
    push_fragment(&mut s, codes);
    s.append("m");
    proof {
        assert(s@ =~= sequence_of(codes@));
    }
    s
}

/// Renders a code list into a full control sequence.
///
/// Succeeds exactly when the list is non-empty; an empty list is a usage
/// error, reported as [`BuildError::InvalidArgument`].
pub fn build(codes: &Vec<u8>) -> (r: Result<String, BuildError>)
    ensures
        match r {
            Ok(s) => codes@.len() > 0 && s@ == sequence_of(codes@),
            Err(e) => codes@.len() == 0 && e == BuildError::InvalidArgument,
        },
{
    if codes.len() == 0 {
        return Err(BuildError::InvalidArgument);
    }
    Ok(render_codes(codes))
}

/// Renders a code list into the bare fragment form: the codes in decimal,
/// joined by `;`, without the opening `ESC [` and closing `m`. Such a
/// fragment can be combined with further codes, or wrapped whole by
/// [`build_from_fragment`].
///
/// Succeeds exactly when the list is non-empty.
pub fn build_fragment(codes: &Vec<u8>) -> (r: Result<String, BuildError>)
    ensures
        match r {
            Ok(s) => codes@.len() > 0 && s@ == fragment_of(codes@),
            Err(e) => codes@.len() == 0 && e == BuildError::InvalidArgument,
        },
{
    if codes.len() == 0 {
        return Err(BuildError::InvalidArgument);
    }
    let mut s = String::new();
    push_fragment(&mut s, codes);
    proof {
        assert(s@ =~= fragment_of(codes@));
    }
    Ok(s)
}

/// Wraps a pre-joined code fragment into a full control sequence by adding
/// the opening `ESC [` and the closing `m`.
///
/// Succeeds exactly when the fragment is non-empty; wrapping an empty
/// fragment would emit a sequence with no codes, which is a usage error.
pub fn build_from_fragment(fragment: &str) -> (r: Result<String, BuildError>)
    ensures
        match r {
            Ok(s) => fragment@.len() > 0 && s@ == seq_prefix() + fragment@ + seq_suffix(),
            Err(e) => fragment@.len() == 0 && e == BuildError::InvalidArgument,
        },
{
    if fragment.is_empty() {
        return Err(BuildError::InvalidArgument);
    }
    let mut s = String::new();
    proof {
        reveal_strlit("\u{1B}[");
        assert("\u{1B}["@ =~= seq_prefix());
        reveal_strlit("m");
        assert("m"@ =~= seq_suffix());
    }
    s.append("\u{1B}[");
    s.append(fragment);
    s.append("m");
    proof {
        assert(s@ =~= seq_prefix() + fragment@ + seq_suffix());
    }
    Ok(s)
}

/// The fragment selecting foreground colour `idx` from the 256-colour
/// palette: `38;5;<idx>`.
pub fn c256_fg(idx: u8) -> (r: String)
    ensures
        r@ == fragment_of(seq![38u8, 5u8, idx]),
{
    let codes: Vec<u8> = vec![38, 5, idx];
    let mut s = String::new();
    push_fragment(&mut s, &codes);
    s
}

/// The fragment selecting background colour `idx` from the 256-colour
/// palette: `48;5;<idx>`.
pub fn c256_bg(idx: u8) -> (r: String)
    ensures
        r@ == fragment_of(seq![48u8, 5u8, idx]),
{
    let codes: Vec<u8> = vec![48, 5, idx];
    let mut s = String::new();
    push_fragment(&mut s, &codes);
    s
}

/// The fragment selecting a 24-bit RGB foreground colour:
/// `38;2;<red>;<green>;<blue>`.
pub fn rgb_fg(red: u8, green: u8, blue: u8) -> (r: String)
    ensures
        r@ == fragment_of(seq![38u8, 2u8, red, green, blue]),
{
    let codes: Vec<u8> = vec![38, 2, red, green, blue];
    let mut s = String::new();
    push_fragment(&mut s, &codes);
    s
}

/// The fragment selecting a 24-bit RGB background colour:
/// `48;2;<red>;<green>;<blue>`.
pub fn rgb_bg(red: u8, green: u8, blue: u8) -> (r: String)
    ensures
        r@ == fragment_of(seq![48u8, 2u8, red, green, blue]),
{
    let codes: Vec<u8> = vec![48, 2, red, green, blue];
    let mut s = String::new();
    push_fragment(&mut s, &codes);
    s
}

/// Joining fragments is how codes compose: the fragment of two code lists
/// laid end to end is the two fragments joined by a single `;`. This is the
/// rule that lets an extended-colour fragment stand inside a larger
/// sequence unchanged.
pub proof fn lemma_fragment_concat(a: Seq<u8>, b: Seq<u8>)
    requires
        a.len() > 0,
        b.len() > 0,
    ensures
        fragment_of(a + b) == fragment_of(a) + seq![';'] + fragment_of(b),
    decreases b.len(),
{
    if b.len() == 1 {
        assert((a + b).drop_last() =~= a);
        assert((a + b).last() == b[0]);
        assert(fragment_of(b) == dec_chars(b[0] as nat));
        assert(fragment_of(a + b) =~= fragment_of(a) + seq![';'] + fragment_of(b));
    } else {
        lemma_fragment_concat(a, b.drop_last());
        assert((a + b).drop_last() =~= a + b.drop_last());
        assert((a + b).last() == b.last());
        assert(fragment_of(a + b) =~= fragment_of(a) + seq![';'] + fragment_of(b));
    }
}

/// A full control sequence is exactly the fragment of its codes between the
/// fixed prefix and suffix, so a fragment wrapped by [`build_from_fragment`]
/// equals the sequence built from its codes directly.
pub proof fn lemma_wrap_fragment(codes: Seq<u8>)
    ensures
        seq_prefix() + fragment_of(codes) + seq_suffix() == sequence_of(codes),
{
}

/// The decimal rendering of a code holds digit characters only, and never
/// starts with a leading zero unless the code itself is zero.
pub proof fn lemma_dec_chars_shape(n: nat)
    ensures
        dec_chars(n).len() > 0,
        forall|i: int|
            0 <= i < dec_chars(n).len() ==> exists|d: nat| d < 10 && #[trigger] dec_chars(n)[i]
                == digit_char(d),
        n > 0 ==> dec_chars(n)[0] != '0',
        n == 0 ==> dec_chars(n) == seq!['0'],
    decreases n,
{
    if n < 10 {
        assert(dec_chars(n) == seq![digit_char(n)]);
        assert(digit_char(n) == digit_char(n));
        if n == 0 {
            assert(dec_chars(n) =~= seq!['0']);
        }
    } else {
        lemma_dec_chars_shape(n / 10);
        assert(dec_chars(n) == dec_chars(n / 10).push(digit_char(n % 10)));
        assert(n % 10 < 10);
        assert(forall|i: int|
            0 <= i < dec_chars(n).len() ==> exists|d: nat| d < 10 && #[trigger] dec_chars(n)[i]
                == digit_char(d)) by {
            assert(forall|i: int|
                0 <= i < dec_chars(n / 10).len() ==> #[trigger] dec_chars(n)[i] == dec_chars(
                    n / 10,
                )[i]);
            assert(dec_chars(n).last() == digit_char(n % 10));
        }
        assert(dec_chars(n)[0] == dec_chars(n / 10)[0]);
        assert(dec_chars(n / 10)[0] != '0');
    }
}

} // verus!
