use vstd::prelude::*;

verus! {

/// The key of a key press.
#[derive(Clone, Copy, Debug, PartialEq, Eq, Structural)]
pub enum KeyCode {
    Char(char),
    Backspace,
    Left,
    Right,
    Up,
    Down,
    Enter,
    Esc,
    Other,
}

/// A key press: the key, and whether Control alone was held.
#[derive(Clone, Copy, Debug, PartialEq, Eq, Structural)]
pub struct Key {
    pub code: KeyCode,
    pub ctrl: bool,
}

/// Moves the highlight down: `j` or the down arrow.
pub open spec fn is_down(k: Key) -> bool {
    k.code == KeyCode::Char('j') || k.code == KeyCode::Down
}

/// Moves the highlight up: `k` or the up arrow.
pub open spec fn is_up(k: Key) -> bool {
    k.code == KeyCode::Char('k') || k.code == KeyCode::Up
}

/// Control with `c`.
pub open spec fn is_ctrl(k: Key, c: char) -> bool {
    k.ctrl && k.code == KeyCode::Char(c)
}

/// Asks to leave the program: Control with `c` or `C`.
pub open spec fn is_quit(k: Key) -> bool {
    is_ctrl(k, 'c') || is_ctrl(k, 'C')
}

impl Key {
    pub fn quit(&self) -> (r: bool)
        ensures
            r == is_quit(*self),
    {
        self.ctrl_with('c') || self.ctrl_with('C')
    }

    pub fn down(&self) -> (r: bool)
        ensures
            r == is_down(*self),
    {
        self.code == KeyCode::Char('j') || self.code == KeyCode::Down
    }

    pub fn up(&self) -> (r: bool)
        ensures
            r == is_up(*self),
    {
        self.code == KeyCode::Char('k') || self.code == KeyCode::Up
    }

    pub fn ctrl_with(&self, c: char) -> (r: bool)
        ensures
            r == is_ctrl(*self, c),
    {
        self.ctrl && self.code == KeyCode::Char(c)
    }
}

/// What handling a key press did, and what the caller has to do next.
#[derive(Clone, Copy, Debug, PartialEq, Eq, Structural)]
pub enum KeyOutcome {
    /// The press was handled.
    Done,
    /// A forward move waits for a page: the caller yields until `resume`
    /// reports it complete.
    Waiting,
    /// A fetch was needed but could not be queued; nothing changed.
    Busy,
    /// The active view was replaced; the caller retires the old view's
    /// worker and starts one for the new view.
    Switched,
    /// The view asks to be left for the one before it.
    Leave,
    /// The operator asked to leave.
    Quit,
    /// The press means nothing here.
    Ignored,
}

/// The outcome of a key press that asked for a forward move.
pub open spec fn advance_outcome(a: crate::selection::Advance) -> KeyOutcome {
    match a {
        crate::selection::Advance::Moved => KeyOutcome::Done,
        crate::selection::Advance::Waiting => KeyOutcome::Waiting,
        crate::selection::Advance::Busy => KeyOutcome::Busy,
    }
}

/// Maps the result of a forward move to a key outcome.
pub fn outcome_of_advance(a: crate::selection::Advance) -> (r: KeyOutcome)
    ensures
        r == advance_outcome(a),
{
    match a {
        crate::selection::Advance::Moved => KeyOutcome::Done,
        crate::selection::Advance::Waiting => KeyOutcome::Waiting,
        crate::selection::Advance::Busy => KeyOutcome::Busy,
    }
}

/// A binding shown to the operator: the keys and what they do.
pub struct Keybind {
    keys: Vec<String>,
    operation: String,
}

impl Keybind {
    pub fn new(keys: Vec<String>, operation: String) -> (r: Self)
        ensures
            r.keys() == keys@,
            r.operation() == operation@,
    {
        Keybind { keys, operation }
    }

    pub closed spec fn keys(&self) -> Seq<String> {
        self.keys@
    }

    pub closed spec fn operation(&self) -> Seq<char> {
        self.operation@
    }

    pub fn key_list(&self) -> (r: &Vec<String>)
        ensures
            r@ == self.keys(),
    {
        &self.keys
    }

    pub fn operation_text(&self) -> (r: &String)
        ensures
            r@ == self.operation(),
    {
        &self.operation
    }
}

/// A binding list as text: each action with the keys that trigger it.
pub open spec fn binding_text(b: (&str, &[&str])) -> (Seq<char>, Seq<Seq<char>>) {
    (b.0@, b.1@.map_values(|k: &str| k@))
}

/// The bindings shown in the footer, in order.
pub struct KeybindsWidget {
    inner: Vec<(String, Vec<String>)>,
}

fn owned_keys(keys: &[&str]) -> (r: Vec<String>)
    ensures
        r@.map_values(|k: String| k@) == keys@.map_values(|k: &str| k@),
{
    let mut out: Vec<String> = Vec::new();
    let mut i: usize = 0;
    while i < keys.len()
        invariant
            i <= keys@.len(),
            out@.len() == i,
            out@.map_values(|k: String| k@) == keys@.subrange(0, i as int).map_values(
                |k: &str| k@,
            ),
        decreases keys@.len() - i,
    {
        let ghost prev = out@;
        let k = keys[i].to_owned();
        assert(k@ == keys@[i as int]@);
        out.push(k);
        i = i + 1;
        assert forall|j: int| 0 <= j < i implies #[trigger] out@[j]@ == keys@[j]@ by {
            if j < i - 1 {
                assert(prev.map_values(|k: String| k@)[j] == keys@.subrange(0, i - 1).map_values(
                    |k: &str| k@,
                )[j]);
                assert(out@[j] == prev[j]);
            }
        }
        assert(out@.map_values(|k: String| k@) =~= keys@.subrange(0, i as int).map_values(
            |k: &str| k@,
        ));
    }
    assert(keys@.subrange(0, i as int) =~= keys@);
    out
}

impl KeybindsWidget {
    /// The bindings as text, in order.
    pub closed spec fn bindings(&self) -> Seq<(Seq<char>, Seq<Seq<char>>)> {
        self.inner@.map_values(|e: (String, Vec<String>)| (e.0@, e.1@.map_values(|k: String| k@)))
    }

    /// Holds `keybinds`, in order.
    pub fn new(keybinds: &[(&str, &[&str])]) -> (r: Self)
        ensures
            r.bindings() == keybinds@.map_values(|b: (&str, &[&str])| binding_text(b)),
    {
        let mut w = KeybindsWidget { inner: Vec::new() };
        let mut i: usize = 0;
        while i < keybinds.len()
            invariant
                i <= keybinds@.len(),
                w.bindings() == keybinds@.subrange(0, i as int).map_values(
                    |b: (&str, &[&str])| binding_text(b),
                ),
            decreases keybinds@.len() - i,
        {
            w.push(keybinds[i]);
            i = i + 1;
            assert(w.bindings() =~= keybinds@.subrange(0, i as int).map_values(
                |b: (&str, &[&str])| binding_text(b),
            ));
        }
        assert(keybinds@.subrange(0, i as int) =~= keybinds@);
        w
    }

    /// Adds a binding after the others.
    pub fn push(&mut self, keybind: (&str, &[&str]))
        ensures
            final(self).bindings() == old(self).bindings().push(binding_text(keybind)),
    {
        let entry = (keybind.0.to_owned(), owned_keys(keybind.1));
        self.inner.push(entry);
        assert(self.bindings() =~= old(self).bindings().push(binding_text(keybind)));
    }

    /// The bindings, in order.
    pub fn entries(&self) -> (r: &Vec<(String, Vec<String>)>)
        ensures
            r@.map_values(|e: (String, Vec<String>)| (e.0@, e.1@.map_values(|k: String| k@)))
                == self.bindings(),
    {
        &self.inner
    }
}

} // verus!
