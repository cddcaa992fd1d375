use vstd::prelude::*;

verus! {

/// The two kinds of celebration the relay can ask the user interface for.
#[derive(Clone, Copy, Debug, PartialEq, Eq, Structural)]
pub enum EffectCategory {
    Small,
    Big,
}

/// The category a trigger label falls into: the exact label `big` asks for
/// the big effect, every other label (whatever its case) for the small one.
pub open spec fn category_of(label: Seq<char>) -> EffectCategory {
    if label == "big"@ {
        EffectCategory::Big
    } else {
        EffectCategory::Small
    }
}

/// Whether two strings hold the same characters.
pub fn same_text(a: &str, b: &str) -> (r: bool)
    ensures
        r == (a@ == b@),
{
    let n = a.unicode_len();
    if n != b.unicode_len() {
        return false;
    }
    let mut i: usize = 0;
    while i < n
        invariant
            n == a@.len(),
            n == b@.len(),
            i <= n,
            a@.subrange(0, i as int) == b@.subrange(0, i as int),
        decreases n - i,
    {
        if a.get_char(i) != b.get_char(i) {
            assert(a@[i as int] != b@[i as int]);
            return false;
        }
        assert(a@.subrange(0, i + 1) == a@.subrange(0, i as int).push(a@[i as int]));
        assert(b@.subrange(0, i + 1) == b@.subrange(0, i as int).push(b@[i as int]));
        i = i + 1;
    }
    assert(a@ == a@.subrange(0, n as int));
    assert(b@ == b@.subrange(0, n as int));
    true
}

/// Classifies a trigger label.
pub fn classify(event_type: &str) -> (r: EffectCategory)
    ensures
        r == category_of(event_type@),
{
    if same_text(event_type, "big") {
        EffectCategory::Big
    } else {
        EffectCategory::Small
    }
}

impl EffectCategory {
    /// The name of the event that asks the user interface for this effect.
    pub open spec fn spec_event_name(self) -> Seq<char> {
        match self {
            EffectCategory::Small => "celebrate-small"@,
            EffectCategory::Big => "celebrate-big"@,
        }
    }

    /// The name of the event to publish for this effect.
    pub fn event_name(&self) -> (r: &'static str)
        ensures
            r@ == self.spec_event_name(),
    {
        match self {
            EffectCategory::Small => "celebrate-small",
            EffectCategory::Big => "celebrate-big",
        }
    }
}

} // verus!
