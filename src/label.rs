use vstd::prelude::*;
use vstd::string::StrSliceExecFns;

use crate::query::string_from_chars;

verus! {

/// `c` lowered, for the letters A to Z; other characters stay.
pub open spec fn lower(c: char) -> char {
    if 'A' <= c <= 'Z' {
        ((c as u32) + 32) as char
    } else {
        c
    }
}

/// `c` raised, for the letters a to z; other characters stay.
pub open spec fn upper(c: char) -> char {
    if 'a' <= c <= 'z' {
        ((c as u32) - 32) as char
    } else {
        c
    }
}

fn lower_char(c: char) -> (r: char)
    ensures
        r == lower(c),
{
    if 'A' <= c && c <= 'Z' {
        ((c as u8) + 32) as char
    } else {
        c
    }
}

fn upper_char(c: char) -> (r: char)
    ensures
        r == upper(c),
{
    if 'a' <= c && c <= 'z' {
        ((c as u8) - 32) as char
    } else {
        c
    }
}

/// The name with each underscore read as a space.
pub open spec fn spaced(name: Seq<char>) -> Seq<char> {
    name.map_values(|c: char| if c == '_' { ' ' } else { c })
}

/// Where the word that starts at `i` ends: just past the first space at or
/// after `i`, or at the end.
pub open spec fn word_end(s: Seq<char>, i: int) -> int
    decreases s.len() - i,
{
    if i >= s.len() {
        s.len() as int
    } else if s[i] == ' ' {
        i + 1
    } else {
        word_end(s, i + 1)
    }
}

/// A word lowered, with its first character raised.
pub open spec fn titled(w: Seq<char>) -> Seq<char> {
    Seq::new(w.len(), |k: int| if k == 0 { upper(lower(w[k])) } else { lower(w[k]) })
}

/// The words that a label leaves out.
pub open spec fn is_dropped(w: Seq<char>) -> bool {
    w == "Event "@ || w == "Type "@
}

/// The label of the words of `s` from position `i` on: each word titled,
/// the dropped ones left out.
pub open spec fn label_from(s: Seq<char>, i: int) -> Seq<char>
    decreases s.len() - i,
{
    let e = word_end(s, i);
    if i >= s.len() || e <= i || e > s.len() {
        Seq::empty()
    } else {
        let w = titled(s.subrange(i, e));
        (if is_dropped(w) {
            Seq::empty()
        } else {
            w
        }) + label_from(s, e)
    }
}

/// The label shown for an event type named like `EVENT_TYPE_TIMER_FIRED`:
/// underscores become spaces, each word is lowered with its first letter
/// raised, and the words "Event" and "Type" are left out ("Timer Fired").
pub open spec fn event_type_label(name: Seq<char>) -> Seq<char> {
    label_from(spaced(name), 0)
}

proof fn lemma_word_end_after(s: Seq<char>, i: int)
    requires
        0 <= i < s.len(),
    ensures
        i < word_end(s, i) <= s.len(),
    decreases s.len() - i,
{
    if s[i] != ' ' {
        if i + 1 < s.len() {
            lemma_word_end_after(s, i + 1);
        } else {
            assert(word_end(s, i + 1) == s.len());
        }
    }
}

fn matches_word(w: &Vec<char>, lit: &str) -> (r: bool)
    ensures
        r == (w@ == lit@),
{
    let n = lit.unicode_len();
    if w.len() != n {
        return false;
    }
    let mut k: usize = 0;
    while k < n
        invariant
            k <= n,
            n == lit@.len(),
            w@.len() == n,
            forall|j: int| 0 <= j < k ==> w@[j] == lit@[j],
        decreases n - k,
    {
        if w[k] != lit.get_char(k) {
            return false;
        }
        k = k + 1;
    }
    assert(w@ =~= lit@);
    true
}

/// Writes the label of an event type name; see [`event_type_label`].
pub fn type_label(name: &str) -> (r: String)
    ensures
        r@ == event_type_label(name@),
{
    let n = name.unicode_len();
    let mut s: Vec<char> = Vec::new();
    let mut i: usize = 0;
    while i < n
        invariant
            i <= n,
            n == name@.len(),
            s@ == spaced(name@).subrange(0, i as int),
        decreases n - i,
    {
        let c = name.get_char(i);
        s.push(
            if c == '_' {
                ' '
            } else {
                c
            },
        );
        i = i + 1;
        assert(s@ =~= spaced(name@).subrange(0, i as int));
    }
    assert(s@ =~= spaced(name@));
    let ghost sv = s@;
    let mut out: Vec<char> = Vec::new();
    let mut i: usize = 0;
    while i < n
        invariant
            i <= n,
            n == sv.len(),
            s@ == sv,
            label_from(sv, 0) == out@ + label_from(sv, i as int),
        decreases n - i,
    {
        let mut j: usize = i;
        while j < n && s[j] != ' '
            invariant
                i <= j <= n,
                n == sv.len(),
                s@ == sv,
                word_end(sv, i as int) == word_end(sv, j as int),
            decreases n - j,
        {
            j = j + 1;
        }
        let e: usize = if j < n {
            j + 1
        } else {
            n
        };
        assert(word_end(sv, i as int) == e);
        proof {
            lemma_word_end_after(sv, i as int);
        }
        let mut w: Vec<char> = Vec::new();
        let mut k: usize = i;
        while k < e
            invariant
                i <= k <= e <= n,
                i < e,
                n == sv.len(),
                s@ == sv,
                w@ == titled(sv.subrange(i as int, e as int)).subrange(0, k - i),
            decreases e - k,
        {
            let c = lower_char(s[k]);
            w.push(
                if k == i {
                    upper_char(c)
                } else {
                    c
                },
            );
            k = k + 1;
            assert(w@ =~= titled(sv.subrange(i as int, e as int)).subrange(0, k - i));
        }
        let ghost word = titled(sv.subrange(i as int, e as int));
        assert(w@ =~= word);
        let ghost before = out@;
        assert(label_from(sv, i as int) == (if is_dropped(word) {
            Seq::<char>::empty()
        } else {
            word
        }) + label_from(sv, e as int));
        if !matches_word(&w, "Event ") && !matches_word(&w, "Type ") {
            out.append(&mut w);
            assert(out@ + label_from(sv, e as int) =~= before + (word + label_from(sv, e as int)));
        } else {
            assert(Seq::<char>::empty() + label_from(sv, e as int) =~= label_from(sv, e as int));
        }
        i = e;
    }
    string_from_chars(out.as_slice())
}

/// The decimal digit for `d`, below ten.
pub open spec fn digit(d: nat) -> char {
    (('0' as u32) + d) as char
}

/// The decimal writing of `n`, without leading zeros.
pub open spec fn decimal(n: nat) -> Seq<char>
    decreases n,
{
    if n < 10 {
        seq![digit(n)]
    } else {
        decimal(n / 10).push(digit(n % 10))
    }
}

fn push_decimal(n: u64, out: &mut Vec<char>)
    ensures
        final(out)@ == old(out)@ + decimal(n as nat),
    decreases n,
{
    if n >= 10 {
        push_decimal(n / 10, out);
    }
    let d = (n % 10) as u8;
    out.push((48u8 + d) as char);
    proof {
        assert(old(out)@ + decimal(n as nat) =~= final(out)@) by {
            if n >= 10 {
                assert(decimal(n as nat) == decimal((n / 10) as nat).push(digit((n % 10) as nat)));
            }
        }
    }
}

/// A span of whole seconds written as "<seconds>s".
pub fn seconds_text(seconds: u64) -> (r: String)
    ensures
        r@ == decimal(seconds as nat).push('s'),
{
    let mut out: Vec<char> = Vec::new();
    push_decimal(seconds, &mut out);
    out.push('s');
    assert(out@ =~= decimal(seconds as nat).push('s'));
    string_from_chars(out.as_slice())
}

} // verus!
