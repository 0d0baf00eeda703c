//! Per-tag handling policies: the action applied to a node's subtree and the
//! rule table that maps tag or class names to actions.

use vstd::prelude::*;
use std::sync::Arc;

verus! {

/// Read-only DOM node handle from libxml, carried opaquely: replacement
/// callbacks receive the node being replaced, but this layer never inspects
/// a node itself.
#[verifier::external_type_specification]
#[verifier::external_body]
pub struct ExRoNode(libxml::readonly::RoNode);

/// A replacement callback: computes, at traversal time, the token that
/// stands in for a node's whole subtree. Implementations must be stateless
/// or internally synchronized, since one policy table may serve many
/// concurrent traversals.
pub trait ReplacementFunction: Send + Sync {
    /// Computes the replacement string for `node`.
    fn compute_replacement(&self, node: libxml::readonly::RoNode) -> String;
}

/// Specifies how to deal with a certain tag
pub enum SpecialTagsOption {
    /// Recurse into tag (default behaviour)
    Enter,
    /// Normalize tag, replacing it by some token
    Normalize(String),
    /// Normalize tag, obtain replacement string by function call
    FunctionNormalize(Arc<Box<dyn ReplacementFunction>>),
    /// Skip tag
    Skip,
}

/// Relies on `std::sync::Arc::clone`: the returned handle refers to the very
/// same value as the argument.
#[verifier::external_body]
fn share_replacer(f: &Arc<Box<dyn ReplacementFunction>>) -> (r: Arc<
    Box<dyn ReplacementFunction>,
>)
    ensures
        r == *f,
{
    Arc::clone(f)
}

impl Clone for SpecialTagsOption {
    /// A clone is equal to the original; a cloned `FunctionNormalize` shares
    /// the same callback.
    fn clone(&self) -> (r: Self)
        ensures
            r == *self,
    {
        match self {
            SpecialTagsOption::Enter => SpecialTagsOption::Enter,
            SpecialTagsOption::Normalize(token) => SpecialTagsOption::Normalize(token.clone()),
            SpecialTagsOption::FunctionNormalize(f) => SpecialTagsOption::FunctionNormalize(
                share_replacer(f),
            ),
            SpecialTagsOption::Skip => SpecialTagsOption::Skip,
        }
    }
}

/// Relies on `String::push_str`: appends the characters of `piece` to
/// `dest`.
#[verifier::external_body]
fn append_str(dest: &mut String, piece: &str)
    ensures
        final(dest)@ == old(dest)@ + piece@,
{
    dest.push_str(piece)
}

/// The rendering of an action as text, one line per variant; a `Normalize`
/// action shows its replacement token.
pub open spec fn description_of(action: SpecialTagsOption) -> Seq<char> {
    match action {
        SpecialTagsOption::Enter => "SpecialTagsOption {Enter}"@,
        SpecialTagsOption::Normalize(token) => "SpecialTagsOption {Normalize("@ + token@ + ")}"@,
        SpecialTagsOption::FunctionNormalize(_) => "SpecialTagsOption {FunctionNormalize}"@,
        SpecialTagsOption::Skip => "SpecialTagsOption {Skip}"@,
    }
}

impl SpecialTagsOption {
    /// Renders the action as text for diagnostics and logs.
    pub fn description(&self) -> (r: String)
        ensures
            r@ == description_of(*self),
    {
        match self {
            SpecialTagsOption::Enter => "SpecialTagsOption {Enter}".to_owned(),
            SpecialTagsOption::Normalize(token) => {
                let mut text = "SpecialTagsOption {Normalize(".to_owned();
                append_str(&mut text, token.as_str());
                append_str(&mut text, ")}");
                text
            },
            SpecialTagsOption::FunctionNormalize(_) => {
                "SpecialTagsOption {FunctionNormalize}".to_owned()
            },
            SpecialTagsOption::Skip => "SpecialTagsOption {Skip}".to_owned(),
        }
    }
}

/// Holds exactly when `action` replaces the subtree by the fixed token
/// `token`.
pub open spec fn normalizes_to(action: SpecialTagsOption, token: Seq<char>) -> bool {
    action matches SpecialTagsOption::Normalize(s) && s@ == token
}

/// The mapping denoted by a list of (name, action) entries: a later entry
/// for the same name overrides an earlier one.
pub open spec fn rules_map(entries: Seq<(String, SpecialTagsOption)>) -> Map<
    Seq<char>,
    SpecialTagsOption,
>
    decreases entries.len(),
{
    if entries.len() == 0 {
        Map::empty()
    } else {
        rules_map(entries.drop_last()).insert(entries.last().0@, entries.last().1)
    }
}

/// Entries at positions `i` and beyond never mention `key`, so the denoted
/// mapping at `key` is already settled by the first `i` entries.
proof fn lemma_rules_map_prefix(entries: Seq<(String, SpecialTagsOption)>, i: int, key: Seq<char>)
    requires
        0 <= i <= entries.len(),
        forall|j: int| i <= j < entries.len() ==> entries[j].0@ != key,
    ensures
        rules_map(entries).contains_key(key) == rules_map(entries.take(i)).contains_key(key),
        rules_map(entries).contains_key(key) ==> rules_map(entries)[key] == rules_map(
            entries.take(i),
        )[key],
    decreases entries.len() - i,
{
    if i == entries.len() {
        assert(entries.take(i) =~= entries);
    } else {
        lemma_rules_map_prefix(entries, i + 1, key);
        assert(entries.take(i + 1).drop_last() =~= entries.take(i));
        assert(entries.take(i + 1).last() == entries[i]);
        assert(rules_map(entries.take(i + 1)) == rules_map(entries.take(i)).insert(
            entries[i].0@,
            entries[i].1,
        ));
    }
}

/// One of the two policy tables: associates tag names (or class names) with
/// the action to take on a matching node. Lookup sees the most recently
/// inserted entry for a name.
#[derive(Clone)]
pub struct TagRuleTable {
    entries: Vec<(String, SpecialTagsOption)>,
}

impl View for TagRuleTable {
    type V = Map<Seq<char>, SpecialTagsOption>;

    closed spec fn view(&self) -> Map<Seq<char>, SpecialTagsOption> {
        rules_map(self.entries@)
    }
}

impl TagRuleTable {
    /// An empty table: no name has a rule.
    pub fn new() -> (r: TagRuleTable)
        ensures
            r@ == Map::<Seq<char>, SpecialTagsOption>::empty(),
    {
        TagRuleTable { entries: Vec::new() }
    }

    /// Adds a rule for `name`, overriding any earlier rule for it.
    pub fn insert(&mut self, name: String, action: SpecialTagsOption)
        ensures
            final(self)@ == old(self)@.insert(name@, action),
    {
        self.entries.push((name, action));
        proof {
            assert(self.entries@.drop_last() =~= old(self).entries@);
        }
    }

    /// Looks up the rule for `name`, if any.
    pub fn get<'a>(&'a self, name: &String) -> (r: Option<&'a SpecialTagsOption>)
        ensures
            match r {
                Some(action) => self@.contains_key(name@) && *action == self@[name@],
                None => !self@.contains_key(name@),
            },
    {
        let mut i: usize = self.entries.len();
        while i > 0
            invariant
                i <= self.entries.len(),
                forall|j: int| i <= j < self.entries@.len() ==> self.entries@[j].0@ != name@,
            decreases i,
        {
            i = i - 1;
            if self.entries[i].0 == *name {
                proof {
                    lemma_rules_map_prefix(self.entries@, i + 1, name@);
                    assert(self.entries@.take(i + 1).drop_last() =~= self.entries@.take(i as int));
                    assert(self.entries@.take(i + 1).last() == self.entries@[i as int]);
                }
                return Some(&self.entries[i].1);
            }
        }
        proof {
            lemma_rules_map_prefix(self.entries@, 0, name@);
            assert(self.entries@.take(0) =~= Seq::<(String, SpecialTagsOption)>::empty());
        }
        None
    }

    /// True exactly when no name has a rule.
    pub fn is_empty(&self) -> (r: bool)
        ensures
            r == (self@ =~= Map::<Seq<char>, SpecialTagsOption>::empty()),
    {
        let empty = self.entries.len() == 0;
        proof {
            if self.entries@.len() > 0 {
                assert(self@.contains_key(self.entries@.last().0@));
            }
        }
        empty
    }
}

} // verus!
