use vstd::prelude::*;
use vstd::string::*;

verus! {

/// The environment variables laid over the inherited environment when the
/// service is started: key and value pairs in the order in which they were
/// set. A key may occur more than once; the pair set last is the one that
/// counts.
pub struct EnvironmentOverlay {
    pub pairs: Vec<(String, String)>,
}

/// A key and its value, as sequences of characters.
pub type EnvPair = (Seq<char>, Seq<char>);

impl View for EnvironmentOverlay {
    type V = Seq<EnvPair>;

    open spec fn view(&self) -> Seq<EnvPair> {
        Seq::new(self.pairs@.len(), |i: int| (self.pairs@[i].0@, self.pairs@[i].1@))
    }
}

/// The value that `key` has under `pairs`: that of the last pair with this
/// key, if there is one.
pub open spec fn effective_value(pairs: Seq<EnvPair>, key: Seq<char>) -> Option<Seq<char>>
    decreases pairs.len(),
{
    if pairs.len() == 0 {
        None
    } else if pairs.last().0 == key {
        Some(pairs.last().1)
    } else {
        effective_value(pairs.drop_last(), key)
    }
}

/// What is set later counts: a key that `overlay` sets has the value that
/// `overlay` gives it, whatever `inherited` says, and every other key keeps
/// the value it has in `inherited`.
pub proof fn lemma_overlay_wins(inherited: Seq<EnvPair>, overlay: Seq<EnvPair>, key: Seq<char>)
    ensures
        effective_value(inherited + overlay, key) == match effective_value(overlay, key) {
            Some(value) => Some(value),
            None => effective_value(inherited, key),
        },
    decreases overlay.len(),
{
    if overlay.len() == 0 {
        assert(inherited + overlay =~= inherited);
    } else {
        assert((inherited + overlay).last() == overlay.last());
        assert((inherited + overlay).drop_last() =~= inherited + overlay.drop_last());
        lemma_overlay_wins(inherited, overlay.drop_last(), key);
    }
}

/// A key that no pair sets has no value.
pub proof fn lemma_unset_key_has_no_value(pairs: Seq<EnvPair>, key: Seq<char>)
    requires
        forall|i: int| 0 <= i < pairs.len() ==> (#[trigger] pairs[i]).0 != key,
    ensures
        effective_value(pairs, key) is None,
    decreases pairs.len(),
{
    if pairs.len() > 0 {
        assert(pairs.last() == pairs[pairs.len() - 1]);
        let earlier = pairs.drop_last();
        assert forall|i: int| 0 <= i < earlier.len() implies (#[trigger] earlier[i]).0 != key by {
            assert(earlier[i] == pairs[i]);
        }
        lemma_unset_key_has_no_value(earlier, key);
    }
}

/// The decimal digit `d` as a character.
pub open spec fn digit_char(d: nat) -> char {
    if d == 0 {
        '0'
    } else if d == 1 {
        '1'
    } else if d == 2 {
        '2'
    } else if d == 3 {
        '3'
    } else if d == 4 {
        '4'
    } else if d == 5 {
        '5'
    } else if d == 6 {
        '6'
    } else if d == 7 {
        '7'
    } else if d == 8 {
        '8'
    } else {
        '9'
    }
}

/// The decimal numeral of `n`, without sign or leading zeros.
pub open spec fn decimal(n: nat) -> Seq<char>
    decreases n,
{
    if n < 10 {
        seq![digit_char(n)]
    } else {
        decimal(n / 10).push(digit_char(n % 10))
    }
}

/// The text of a truth value as the service reads it.
pub open spec fn bool_text(b: bool) -> Seq<char> {
    if b {
        "true"@
    } else {
        "false"@
    }
}

fn digit_str(d: u32) -> (text: &'static str)
    requires
        d < 10,
    ensures
        text@ == seq![digit_char(d as nat)],
{
    proof {
        reveal_strlit("0");
        reveal_strlit("1");
        reveal_strlit("2");
        reveal_strlit("3");
        reveal_strlit("4");
        reveal_strlit("5");
        reveal_strlit("6");
        reveal_strlit("7");
        reveal_strlit("8");
        reveal_strlit("9");
    }
    let text = if d == 0 {
        "0"
    } else if d == 1 {
        "1"
    } else if d == 2 {
        "2"
    } else if d == 3 {
        "3"
    } else if d == 4 {
        "4"
    } else if d == 5 {
        "5"
    } else if d == 6 {
        "6"
    } else if d == 7 {
        "7"
    } else if d == 8 {
        "8"
    } else {
        "9"
    };
    assert(text@ =~= seq![digit_char(d as nat)]);
    text
}

/// Writes `n` as a decimal numeral.
pub fn decimal_string(n: u32) -> (text: String)
    ensures
        text@ == decimal(n as nat),
    decreases n,
{
    let digit = digit_str(n % 10);
    if n < 10 {
        String::from_str(digit)
    } else {
        let mut text = decimal_string(n / 10);
        text.append(digit);
        assert(text@ =~= decimal((n / 10) as nat).push(digit_char((n % 10) as nat)));
        text
    }
}

/// Writes a truth value as `true` or `false`.
pub fn bool_string(b: bool) -> (text: String)
    ensures
        text@ == bool_text(b),
{
    if b {
        String::from_str("true")
    } else {
        String::from_str("false")
    }
}

impl EnvironmentOverlay {
    /// An overlay that sets nothing.
    pub fn new() -> (overlay: Self)
        ensures
            overlay@ == Seq::<EnvPair>::empty(),
    {
        let overlay = EnvironmentOverlay { pairs: Vec::new() };
        assert(overlay@ =~= Seq::<EnvPair>::empty());
        overlay
    }

    /// Sets `key` to `value`, after everything set so far.
    pub fn env(self, key: &str, value: &str) -> (overlay: Self)
        ensures
            overlay@ == self@.push((key@, value@)),
    {
        let mut pairs = self.pairs;
        pairs.push((String::from_str(key), String::from_str(value)));
        let overlay = EnvironmentOverlay { pairs };
        assert(overlay@ =~= self@.push((key@, value@)));
        overlay
    }

    /// The number of pairs.
    pub fn len(&self) -> (n: usize)
        ensures
            n == self@.len(),
    {
        self.pairs.len()
    }

    /// The value that the started process will see for `key`, if the overlay
    /// sets it: where a key was set more than once, the last value.
    pub fn lookup(&self, key: &String) -> (value: Option<String>)
        ensures
            match value {
                Some(text) => effective_value(self@, key@) == Some(text@),
                None => effective_value(self@, key@) is None,
            },
    {
        let mut i: usize = self.pairs.len();
        assert(self@.subrange(0, i as int) =~= self@);
        while i > 0
            invariant
                i <= self.pairs@.len(),
                effective_value(self@, key@) == effective_value(self@.subrange(0, i as int), key@),
            decreases i,
        {
            let ghost prefix = self@.subrange(0, i as int);
            i = i - 1;
            assert(prefix.last() == self@[i as int]);
            assert(prefix.drop_last() =~= self@.subrange(0, i as int));
            if self.pairs[i].0 == *key {
                return Some(self.pairs[i].1.clone());
            }
        }
        assert(self@.subrange(0, 0).len() == 0);
        None
    }
}

} // verus!
