use vstd::prelude::*;
use crate::command::Cmd;

verus! {

/// A set of modifier keys held down with a key, one bit per modifier.
pub type Mods = u8;

/// No modifier key.
pub const MOD_NONE: Mods = 0;

/// The control key.
pub const MOD_CTRL: Mods = 1;

/// A key without a character of its own.
#[derive(Clone, Copy, PartialEq, Eq, Structural, Debug)]
pub enum KeySym {
    Left,
    Right,
    Up,
    Down,
    Escape,
}

/// A key press: a character or a symbolic key, with the modifiers held.
#[derive(Clone, Copy, PartialEq, Eq, Structural, Debug)]
pub enum Key {
    Unicode { codepoint: char, mods: Mods },
    Sym { sym: KeySym, mods: Mods },
}

/// One binding of a keychain: a sequence of key presses and its command.
pub struct Binding {
    pub keys: Vec<Key>,
    pub cmd: Cmd,
}

/// The command that each bound sequence of keys stands for, a later
/// binding of a sequence taking the place of an earlier one.
pub open spec fn bindings_map(s: Seq<Binding>) -> Map<Seq<Key>, Cmd>
    decreases s.len(),
{
    if s.len() == 0 {
        Map::empty()
    } else {
        bindings_map(s.drop_last()).insert(s.last().keys@, s.last().cmd)
    }
}

/// Bindings past `i` that do not hold `k` do not change what `k` is bound to.
proof fn lemma_bindings_map_prefix(s: Seq<Binding>, i: int, k: Seq<Key>)
    requires
        0 <= i <= s.len(),
        forall|j: int| i <= j < s.len() ==> s[j].keys@ != k,
    ensures
        bindings_map(s).contains_key(k) == bindings_map(s.take(i)).contains_key(k),
        bindings_map(s)[k] == bindings_map(s.take(i))[k],
    decreases s.len(),
{
    if s.len() > i {
        assert(s.drop_last().take(i) =~= s.take(i));
        lemma_bindings_map_prefix(s.drop_last(), i, k);
    } else {
        assert(s.take(i) =~= s);
    }
}

/// Two lists of bindings with the same sequences and commands bind alike.
proof fn lemma_bindings_map_same(s: Seq<Binding>, t: Seq<Binding>)
    requires
        s.len() == t.len(),
        forall|j: int| 0 <= j < s.len() ==> s[j].keys@ == t[j].keys@ && s[j].cmd == t[j].cmd,
    ensures
        bindings_map(s) == bindings_map(t),
    decreases s.len(),
{
    if s.len() > 0 {
        lemma_bindings_map_same(s.drop_last(), t.drop_last());
    }
}

/// Maps sequences of key presses to commands.
pub struct Keychain {
    bindings: Vec<Binding>,
}

impl View for Keychain {
    type V = Map<Seq<Key>, Cmd>;

    closed spec fn view(&self) -> Map<Seq<Key>, Cmd> {
        bindings_map(self.bindings@)
    }
}

/// Whether a stored sequence of keys is the given one.
fn same_keys(a: &Vec<Key>, b: &[Key]) -> (r: bool)
    ensures
        r == (a@ == b@),
{
    if a.len() != b.len() {
        return false;
    }
    let n = a.len();
    for i in 0..n
        invariant
            n == a@.len(),
            n == b@.len(),
            forall|j: int| 0 <= j < i ==> a@[j] == b@[j],
    {
        if a[i] != b[i] {
            return false;
        }
    }
    assert(a@ =~= b@);
    true
}

/// A copy of a sequence of keys.
fn copy_keys(keys: &[Key]) -> (r: Vec<Key>)
    ensures
        r@ == keys@,
{
    let mut r: Vec<Key> = Vec::new();
    let n = keys.len();
    for i in 0..n
        invariant
            n == keys@.len(),
            r@ == keys@.take(i as int),
    {
        r.push(keys[i]);
        assert(r@ =~= keys@.take(i + 1));
    }
    assert(keys@.take(n as int) =~= keys@);
    r
}

impl Keychain {
    /// A keychain with no binding.
    pub fn new() -> (r: Keychain)
        ensures
            r@ == Map::<Seq<Key>, Cmd>::empty(),
    {
        Keychain { bindings: Vec::new() }
    }

    /// Binds the sequence `keys` to `cmd`, replacing an earlier binding of
    /// the same sequence.
    pub fn bind(&mut self, keys: &[Key], cmd: Cmd)
        ensures
            final(self)@ == old(self)@.insert(keys@, cmd),
    {
        let b = Binding { keys: copy_keys(keys), cmd };
        self.bindings.push(b);
        assert(self.bindings@.drop_last() =~= old(self).bindings@);
    }

    /// The command bound to the sequence `keys`, if any.
    pub fn get(&self, keys: &[Key]) -> (r: Option<Cmd>)
        ensures
            r == (if self@.contains_key(keys@) {
                Some(self@[keys@])
            } else {
                None::<Cmd>
            }),
    {
        let ghost s = self.bindings@;
        let mut i = self.bindings.len();
        while i > 0
            invariant
                s == self.bindings@,
                0 <= i <= s.len(),
                forall|j: int| i <= j < s.len() ==> s[j].keys@ != keys@,
            decreases i,
        {
            i = i - 1;
            if same_keys(&self.bindings[i].keys, keys) {
                proof {
                    lemma_bindings_map_prefix(s, i + 1, keys@);
                    assert(s.take(i + 1).drop_last() =~= s.take(i as int));
                }
                return Some(self.bindings[i].cmd);
            }
        }
        proof {
            lemma_bindings_map_prefix(s, 0, keys@);
            assert(s.take(0) =~= Seq::<Binding>::empty());
        }
        None
    }

    /// A keychain with the same bindings.
    pub fn clone(&self) -> (r: Keychain)
        ensures
            r@ == self@,
    {
        let mut bindings: Vec<Binding> = Vec::new();
        let n = self.bindings.len();
        for i in 0..n
            invariant
                n == self.bindings@.len(),
                bindings@.len() == i,
                forall|j: int| #![auto] 0 <= j < i ==>
                    bindings@[j].keys@ == self.bindings@[j].keys@
                    && bindings@[j].cmd == self.bindings@[j].cmd,
        {
            let b = &self.bindings[i];
            bindings.push(Binding { keys: copy_keys(b.keys.as_slice()), cmd: b.cmd });
        }
        proof {
            lemma_bindings_map_same(bindings@, self.bindings@);
        }
        Keychain { bindings }
    }
}

} // verus!
