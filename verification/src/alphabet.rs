use vstd::prelude::*;
use vstd::string::*;
use vstd::utf8::is_ascii_chars;

verus! {

/// The 26 symbols a code is built from: digits and consonants chosen so that
/// no two can be misread for one another (0, 1, A, E, I, L, O, S, U and Z are
/// left out).
pub open spec fn alphabet() -> Seq<char> {
    seq![
        '2', '3', '4', '5', '6', '7', '8', '9', 'B', 'C', 'D', 'F', 'G',
        'H', 'J', 'K', 'M', 'N', 'P', 'Q', 'R', 'T', 'V', 'W', 'X', 'Y',
    ]
}

/// The first `n` base-26 digits of `value`, least significant first, each
/// written as its alphabet symbol.
pub open spec fn code_chars(value: u32, n: nat) -> Seq<char>
    decreases n,
{
    if n == 0 {
        Seq::empty()
    } else {
        seq![alphabet()[(value % 26) as int]] + code_chars(value / 26, (n - 1) as nat)
    }
}

/// A full code: five base-26 digits of `value`.
pub open spec fn code_of(value: u32) -> Seq<char> {
    code_chars(value, 5)
}

proof fn lemma_alphabet_contains(j: int)
    requires
        0 <= j < 26,
    ensures
        alphabet().contains(alphabet()[j]),
{
    assert(0 <= j < alphabet().len() && alphabet()[j] == alphabet()[j]);
}

/// Every partial code has as many symbols as digits were taken, and each
/// symbol comes from the alphabet.
pub proof fn lemma_code_chars_wf(value: u32, n: nat)
    ensures
        code_chars(value, n).len() == n,
        forall|i: int| 0 <= i < n ==> alphabet().contains(#[trigger] code_chars(value, n)[i]),
    decreases n,
{
    if n > 0 {
        lemma_code_chars_wf(value / 26, (n - 1) as nat);
        lemma_alphabet_contains((value % 26) as int);
        assert forall|i: int| 0 <= i < n implies alphabet().contains(
            #[trigger] code_chars(value, n)[i],
        ) by {
            if i == 0 {
                assert(code_chars(value, n)[0] == alphabet()[(value % 26) as int]);
            } else {
                assert(code_chars(value, n)[i] == code_chars(value / 26, (n - 1) as nat)[i - 1]);
            }
        }
    }
}

/// Law: every code is exactly five symbols long, each drawn from the
/// alphabet, whatever the truncated value was.
pub proof fn lemma_code_wf(value: u32)
    ensures
        code_of(value).len() == 5,
        forall|i: int| 0 <= i < 5 ==> alphabet().contains(#[trigger] code_of(value)[i]),
{
    lemma_code_chars_wf(value, 5);
}

/// Writes `value` in the code alphabet: five symbols, the remainder by 26
/// first, then the remainders of the successive quotients.
pub fn encode(value: u32) -> (r: String)
    ensures
        r@ == code_of(value),
{
    let table = "23456789BCDFGHJKMNPQRTVWXY";
    proof {
        reveal_strlit("23456789BCDFGHJKMNPQRTVWXY");
        assert(table@ =~= alphabet());
        assert(is_ascii_chars(table@));
    }
    proof {
        reveal_strlit("");
    }
    let mut s = String::from_str("");
    let mut v: u32 = value;
    let mut i: usize = 0;
    proof {
        assert(s@ + code_chars(v, 5) =~= code_of(value));
    }
    while i < 5
        invariant
            i <= 5,
            table@ =~= alphabet(),
            is_ascii(table),
            s@ + code_chars(v, (5 - i) as nat) == code_of(value),
            s@.len() == i,
        decreases 5 - i,
    {
        let idx = (v % 26) as usize;
        let sym = table.substring_ascii(idx, idx + 1);
        proof {
            assert(sym@ =~= seq![alphabet()[idx as int]]);
            assert((s@ + sym@) + code_chars(v / 26, (5 - (i + 1)) as nat) =~= s@ + code_chars(
                v,
                (5 - i) as nat,
            ));
        }
        s.append(sym);
        v = v / 26;
        i = i + 1;
    }
    proof {
        assert(s@ + code_chars(v, 0) =~= s@);
    }
    s
}

} // verus!
