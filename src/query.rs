use vstd::prelude::*;

use crate::keys::{Key, KeyCode};

verus! {

/// White space as `char::is_whitespace` counts it (the Unicode White_Space
/// property).
pub open spec fn is_white(c: char) -> bool {
    let u = c as u32;
    (0x9 <= u <= 0xd) || u == 0x20 || u == 0x85 || u == 0xa0 || u == 0x1680 || (0x2000 <= u
        <= 0x200a) || u == 0x2028 || u == 0x2029 || u == 0x202f || u == 0x205f || u == 0x3000
}

fn white(c: char) -> (r: bool)
    ensures
        r == is_white(c),
{
    let u = c as u32;
    (0x9 <= u && u <= 0xd) || u == 0x20 || u == 0x85 || u == 0xa0 || u == 0x1680 || (0x2000 <= u
        && u <= 0x200a) || u == 0x2028 || u == 0x2029 || u == 0x202f || u == 0x205f || u == 0x3000
}

/// `s[a..b]` is `s` without its leading and trailing white space.
pub open spec fn trims_to(s: Seq<char>, a: int, b: int) -> bool {
    &&& 0 <= a <= b <= s.len()
    &&& forall|i: int| 0 <= i < a ==> is_white(#[trigger] s[i])
    &&& forall|i: int| b <= i < s.len() ==> is_white(#[trigger] s[i])
    &&& a < b ==> !is_white(s[a]) && !is_white(s[b - 1])
}

/// `t` is `s` without its leading and trailing white space.
pub open spec fn is_trim(s: Seq<char>, t: Seq<char>) -> bool {
    exists|a: int, b: int| trims_to(s, a, b) && t == s.subrange(a, b)
}

/// Relies on std's `FromIterator<&char>` for `String`, which collects the
/// characters in order.
#[verifier::external_body]
pub(crate) fn string_from_chars(chars: &[char]) -> (r: String)
    ensures
        r@ == chars@,
{
    chars.iter().collect()
}

/// `chars` without leading and trailing white space, as a string.
pub fn trimmed(chars: &Vec<char>) -> (r: String)
    ensures
        is_trim(chars@, r@),
{
    let ghost s = chars@;
    let n = chars.len();
    let mut a: usize = 0;
    while a < n && white(chars[a])
        invariant
            a <= n,
            n == s.len(),
            s == chars@,
            forall|i: int| 0 <= i < a ==> is_white(#[trigger] s[i]),
        decreases n - a,
    {
        a = a + 1;
    }
    let mut b: usize = n;
    while b > a && white(chars[b - 1])
        invariant
            a <= b <= n,
            n == s.len(),
            s == chars@,
            forall|i: int| b <= i < n ==> is_white(#[trigger] s[i]),
        decreases b - a,
    {
        b = b - 1;
    }
    assert(a < n ==> !is_white(s[a as int]));
    assert(trims_to(s, a as int, b as int));
    let slice = chars.as_slice();
    let mut part: Vec<char> = Vec::new();
    let mut i: usize = a;
    while i < b
        invariant
            a <= i <= b <= n,
            n == s.len(),
            s == chars@,
            slice@ == s,
            part@ == s.subrange(a as int, i as int),
        decreases b - i,
    {
        part.push(slice[i]);
        i = i + 1;
        assert(part@ =~= s.subrange(a as int, i as int));
    }
    let r = string_from_chars(part.as_slice());
    assert(trims_to(s, a as int, b as int) && r@ == s.subrange(a as int, b as int));
    r
}

/// The text being typed, if any, and the cursor's place in it.
pub struct QueryView {
    pub text: Option<Seq<char>>,
    pub cursor: usize,
}

impl QueryView {
    /// Typed text is never empty, and the cursor lies within it or just
    /// after it.
    pub open spec fn wf(self) -> bool {
        match self.text {
            Some(t) => 0 < t.len() && self.cursor <= t.len(),
            None => self.cursor == 0,
        }
    }

    /// Typing `c` inserts it at the cursor and moves the cursor past it.
    pub open spec fn typed(self, c: char) -> QueryView {
        match self.text {
            None => QueryView { text: Some(seq![c]), cursor: 1 },
            Some(t) => QueryView {
                text: Some(t.insert(self.cursor as int, c)),
                cursor: (self.cursor + 1) as usize,
            },
        }
    }

    /// Backspace removes the character before the cursor when the cursor
    /// ends the text, and the one under it otherwise, moving back by one
    /// where it can. Removing the last character leaves no text.
    pub open spec fn erased(self) -> QueryView {
        match self.text {
            None => self,
            Some(t) => {
                let (rest, cursor) = if self.cursor == t.len() {
                    (t.drop_last(), (self.cursor - 1) as usize)
                } else if self.cursor > 0 {
                    (t.remove(self.cursor as int), (self.cursor - 1) as usize)
                } else {
                    (t.remove(0), 0usize)
                };
                if rest.len() == 0 {
                    QueryView { text: None, cursor: 0 }
                } else {
                    QueryView { text: Some(rest), cursor }
                }
            },
        }
    }

    pub open spec fn moved_left(self) -> QueryView {
        if self.text is Some && self.cursor > 0 {
            QueryView { cursor: (self.cursor - 1) as usize, ..self }
        } else {
            self
        }
    }

    pub open spec fn moved_right(self) -> QueryView {
        match self.text {
            Some(t) => if self.cursor < t.len() {
                QueryView { cursor: (self.cursor + 1) as usize, ..self }
            } else {
                self
            },
            None => self,
        }
    }

    /// The state after a key press meant for the input.
    pub open spec fn after_key(self, k: Key) -> QueryView {
        match k.code {
            KeyCode::Char(c) => self.typed(c),
            KeyCode::Backspace => self.erased(),
            KeyCode::Left => self.moved_left(),
            KeyCode::Right => self.moved_right(),
            _ => self,
        }
    }
}

/// An input line for the filter text of the execution list.
pub struct QueryInput {
    text: Option<Vec<char>>,
    cursor: usize,
    placeholder: String,
}

impl View for QueryInput {
    type V = QueryView;

    closed spec fn view(&self) -> QueryView {
        QueryView {
            text: match self.text {
                Some(t) => Some(t@),
                None => None,
            },
            cursor: self.cursor,
        }
    }
}

impl QueryInput {
    pub closed spec fn placeholder(&self) -> Seq<char> {
        self.placeholder@
    }

    pub open spec fn wf(&self) -> bool {
        self@.wf()
    }

    /// An empty input that shows `placeholder`.
    pub fn new(placeholder: &str) -> (r: Self)
        ensures
            r.wf(),
            r@.text is None,
            r.placeholder() == placeholder@,
    {
        QueryInput { text: None, cursor: 0, placeholder: placeholder.to_owned() }
    }

    /// The filter text: what was typed, without leading and trailing white
    /// space; empty when nothing was typed.
    pub fn query(&self) -> (r: String)
        ensures
            match self@.text {
                Some(t) => is_trim(t, r@),
                None => r@.len() == 0,
            },
    {
        match &self.text {
            Some(t) => trimmed(t),
            None => String::new(),
        }
    }

    pub fn cursor(&self) -> (r: usize)
        ensures
            r == self@.cursor,
    {
        self.cursor
    }

    /// What the input shows: the typed text, or the placeholder.
    pub fn shown_text(&self) -> (r: String)
        ensures
            match self@.text {
                Some(t) => r@ == t,
                None => r@ == self.placeholder(),
            },
    {
        match &self.text {
            Some(t) => string_from_chars(t.as_slice()),
            None => self.placeholder.clone(),
        }
    }

    /// Edits the text: a character is typed at the cursor, Backspace
    /// erases, Left and Right move the cursor; other keys do nothing.
    pub fn handle_key(&mut self, key: Key)
        requires
            old(self).wf(),
        ensures
            final(self).wf(),
            final(self)@ == old(self)@.after_key(key),
            final(self).placeholder() == old(self).placeholder(),
    {
        match key.code {
            KeyCode::Char(c) => {
                match &mut self.text {
                    Some(t) => {
                        t.insert(self.cursor, c);
                        let len = t.len();
                        assert(self.cursor < len);
                        self.cursor = self.cursor + 1;
                    },
                    None => {
                        let mut t: Vec<char> = Vec::new();
                        t.push(c);
                        assert(t@ =~= seq![c]);
                        self.text = Some(t);
                        self.cursor = 1;
                    },
                }
            },
            KeyCode::Backspace => {
                let mut empty = false;
                match &mut self.text {
                    Some(t) => {
                        if self.cursor == t.len() {
                            t.pop();
                            self.cursor = self.cursor - 1;
                        } else if self.cursor > 0 {
                            t.remove(self.cursor);
                            self.cursor = self.cursor - 1;
                        } else {
                            t.remove(0);
                        }
                        empty = t.len() == 0;
                    },
                    None => {},
                }
                if empty {
                    self.text = None;
                    self.cursor = 0;
                }
            },
            KeyCode::Left => {
                if self.text.is_some() && self.cursor > 0 {
                    self.cursor = self.cursor - 1;
                }
            },
            KeyCode::Right => {
                match &self.text {
                    Some(t) => {
                        if self.cursor < t.len() {
                            self.cursor = self.cursor + 1;
                        }
                    },
                    None => {},
                }
            },
            _ => {},
        }
    }
}

impl Default for QueryInput {
    /// An empty input with the usual placeholder.
    fn default() -> (r: Self)
        ensures
            r.wf(),
            r@.text is None,
            r.placeholder() == "Enter a query..."@,
    {
        QueryInput::new("Enter a query...")
    }
}

} // verus!
