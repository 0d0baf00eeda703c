//! Data structures for customizing and configuring a DNM's construction and
//! use.

use vstd::prelude::*;

pub use crate::dnm::policy::ReplacementFunction;
pub use crate::dnm::policy::SpecialTagsOption;
pub use crate::dnm::policy::TagRuleTable;
use crate::dnm::policy::normalizes_to;

verus! {

/// Some temporary data for the parser
#[derive(Debug)]
pub struct RuntimeParseData {
    /// plaintext is currently terminated by some whitespace
    pub had_whitespace: bool,
    /// plaintext representation as vector of chars (to deal with UTF-8 mess)
    pub chars: Vec<char>,
}

impl Default for RuntimeParseData {
    /// A fresh accumulator: leading whitespace is suppressed and nothing has
    /// been emitted yet.
    fn default() -> (r: RuntimeParseData)
        ensures
            r.had_whitespace == true,
            r.chars@ == Seq::<char>::empty(),
    {
        RuntimeParseData { had_whitespace: true, chars: Vec::new() }
    }
}

/// Parameters for the DNM generation
#[derive(Clone)]
pub struct DNMParameters {
    /// How to deal with special tags (e.g. `<math>` tags)
    pub special_tag_name_options: TagRuleTable,
    /// How to deal with tags with special class names (e.g. ltx_note_mark)
    /// *Remark*: If both a tag name and a tag class match, the tag name rule
    /// will be applied.
    pub special_tag_class_options: TagRuleTable,
    /// merge sequences of whitespaces into a single ' '.
    /// *Doesn't affect tokens*
    pub normalize_white_spaces: bool,
    /// put spaces before and after tokens
    pub wrap_tokens: bool,
    /// Replace unicode characters by the ascii code representation
    pub normalize_unicode: bool,
    /// Apply the morpha stemmer once to the text nodes
    pub stem_words_once: bool,
    /// Apply the morpha stemmer to the text nodes
    /// as often as it changes something
    pub stem_words_full: bool,
    /// Move to lowercase (remark: The stemmer does this automatically)
    pub convert_to_lowercase: bool,
    /// Support back mapping, i.e. mapping plaintext offsets back to the DOM
    pub support_back_mapping: bool,
}

/// The neutral configuration: only whitespace collapsing and back mapping
/// are switched on, and no tag or class has a rule.
pub open spec fn is_default_params(p: DNMParameters) -> bool {
    &&& p.special_tag_name_options@ == Map::<Seq<char>, SpecialTagsOption>::empty()
    &&& p.special_tag_class_options@ == Map::<Seq<char>, SpecialTagsOption>::empty()
    &&& p.normalize_white_spaces == true
    &&& p.wrap_tokens == false
    &&& p.normalize_unicode == false
    &&& p.stem_words_once == false
    &&& p.stem_words_full == false
    &&& p.convert_to_lowercase == false
    &&& p.support_back_mapping == true
}

impl Default for DNMParameters {
    /// Don't do anything fancy and specific by default
    fn default() -> (r: DNMParameters)
        ensures
            is_default_params(r),
    {
        DNMParameters {
            special_tag_name_options: TagRuleTable::new(),
            special_tag_class_options: TagRuleTable::new(),
            normalize_white_spaces: true,
            wrap_tokens: false,
            normalize_unicode: false,
            stem_words_once: false,
            stem_words_full: false,
            convert_to_lowercase: false,
            support_back_mapping: true,
        }
    }
}

/// A known-inconsistent combination of normalization flags, reported by
/// `DNMParameters::check` without blocking use of the configuration.
#[derive(Clone, Copy, PartialEq, Eq, Structural, Debug)]
pub enum ParameterWarning {
    /// Both stemming modes are set; one is redundant.
    BothStemModes,
    /// Lowercasing is set although stemming already lowercases.
    RedundantLowercase,
    /// Back mapping is set although it does not work together with stemming.
    BackMappingWithStemming,
}

/// The text of a warning.
pub open spec fn warning_text(w: ParameterWarning) -> Seq<char> {
    match w {
        ParameterWarning::BothStemModes => {
            "llamapun::dnm: Parameter options stem_words_once and stem_words_full are both set"@
        },
        ParameterWarning::RedundantLowercase => {
            "llamapun::dnm: Parameter option convert_to_lowercase is redundant, because stemming converts to lowercase already"@
        },
        ParameterWarning::BackMappingWithStemming => {
            "llamapun::dnm: Parameter option support_back_mapping does not work in combination with word stemming yet"@
        },
    }
}

impl ParameterWarning {
    /// The text of the warning, as the configuration checker reports it.
    pub fn message(&self) -> (r: String)
        ensures
            r@ == warning_text(*self),
    {
        match self {
            ParameterWarning::BothStemModes => {
                "llamapun::dnm: Parameter options stem_words_once and stem_words_full are both set".to_owned()
            },
            ParameterWarning::RedundantLowercase => {
                "llamapun::dnm: Parameter option convert_to_lowercase is redundant, because stemming converts to lowercase already".to_owned()
            },
            ParameterWarning::BackMappingWithStemming => {
                "llamapun::dnm: Parameter option support_back_mapping does not work in combination with word stemming yet".to_owned()
            },
        }
    }
}

/// The diagnostics that `check` reports for `p`, in order: both stemming
/// modes set; lowercasing beside stemming; back mapping beside stemming.
pub open spec fn expected_warnings(p: DNMParameters) -> Seq<ParameterWarning> {
    let ws = Seq::<ParameterWarning>::empty();
    let ws = if p.stem_words_once && p.stem_words_full {
        ws.push(ParameterWarning::BothStemModes)
    } else {
        ws
    };
    let ws = if (p.stem_words_once || p.stem_words_full) && p.convert_to_lowercase {
        ws.push(ParameterWarning::RedundantLowercase)
    } else {
        ws
    };
    if (p.stem_words_once || p.stem_words_full) && p.support_back_mapping {
        ws.push(ParameterWarning::BackMappingWithStemming)
    } else {
        ws
    }
}

/// The tag names given a rule by `llamapun_normalization`.
pub open spec fn llamapun_name_keys() -> Set<Seq<char>> {
    set!["math"@, "cite"@, "img"@, "table"@, "head"@, "footer"@]
}

/// The class names given a rule by `llamapun_normalization`.
pub open spec fn llamapun_class_keys() -> Set<Seq<char>> {
    set![
        "ltx_equation"@,
        "ltx_equationgroup"@,
        "ltx_ref"@,
        "ltx_authors"@,
        "ltx_TOC"@,
        "ltx_note_mark"@,
        "ltx_note_outer"@,
        "ltx_bibliography"@,
        "ltx_tag_figure"@,
        "ltx_tag_table"@,
    ]
}

impl DNMParameters {
    /// Normalize in a reasonable way for our math documents
    pub fn llamapun_normalization() -> (r: DNMParameters)
        ensures
            r.special_tag_name_options@.dom() == llamapun_name_keys(),
            normalizes_to(r.special_tag_name_options@["math"@], "mathformula"@),
            normalizes_to(r.special_tag_name_options@["cite"@], "CitationElement"@),
            r.special_tag_name_options@["img"@] is Skip,
            r.special_tag_name_options@["table"@] is Skip,
            r.special_tag_name_options@["head"@] is Skip,
            r.special_tag_name_options@["footer"@] is Skip,
            r.special_tag_class_options@.dom() == llamapun_class_keys(),
            normalizes_to(r.special_tag_class_options@["ltx_equation"@], "\nmathformula\n"@),
            normalizes_to(r.special_tag_class_options@["ltx_equationgroup"@], "\nmathformula\n"@),
            normalizes_to(r.special_tag_class_options@["ltx_ref"@], "REF"@),
            r.special_tag_class_options@["ltx_authors"@] is Skip,
            r.special_tag_class_options@["ltx_TOC"@] is Skip,
            r.special_tag_class_options@["ltx_note_mark"@] is Skip,
            r.special_tag_class_options@["ltx_note_outer"@] is Skip,
            r.special_tag_class_options@["ltx_bibliography"@] is Skip,
            r.special_tag_class_options@["ltx_tag_figure"@] is Skip,
            r.special_tag_class_options@["ltx_tag_table"@] is Skip,
            r.normalize_white_spaces == false,
            r.wrap_tokens == true,
            r.normalize_unicode == true,
            r.stem_words_once == false,
            r.stem_words_full == false,
            r.convert_to_lowercase == false,
            r.support_back_mapping == true,
    {
        let mut name_options = TagRuleTable::new();
        name_options.insert(
            "math".to_owned(),
            SpecialTagsOption::Normalize("mathformula".to_owned()),
        );
        name_options.insert(
            "cite".to_owned(),
            SpecialTagsOption::Normalize("CitationElement".to_owned()),
        );
        name_options.insert("img".to_owned(), SpecialTagsOption::Skip);
        name_options.insert("table".to_owned(), SpecialTagsOption::Skip);
        name_options.insert("head".to_owned(), SpecialTagsOption::Skip);
        name_options.insert("footer".to_owned(), SpecialTagsOption::Skip);

        let mut class_options = TagRuleTable::new();
        class_options.insert(
            "ltx_equation".to_owned(),
            SpecialTagsOption::Normalize("\nmathformula\n".to_owned()),
        );
        class_options.insert(
            "ltx_equationgroup".to_owned(),
            SpecialTagsOption::Normalize("\nmathformula\n".to_owned()),
        );
        class_options.insert("ltx_ref".to_owned(), SpecialTagsOption::Normalize("REF".to_owned()));
        class_options.insert("ltx_authors".to_owned(), SpecialTagsOption::Skip);
        class_options.insert("ltx_TOC".to_owned(), SpecialTagsOption::Skip);
        class_options.insert("ltx_note_mark".to_owned(), SpecialTagsOption::Skip);
        class_options.insert("ltx_note_outer".to_owned(), SpecialTagsOption::Skip);
        class_options.insert("ltx_bibliography".to_owned(), SpecialTagsOption::Skip);
        // Ignores all caption metadata tags, to avoid leaking artefacts into
        // a pure language target
        class_options.insert("ltx_tag_figure".to_owned(), SpecialTagsOption::Skip);
        class_options.insert("ltx_tag_table".to_owned(), SpecialTagsOption::Skip);

        let result = DNMParameters {
            special_tag_name_options: name_options,
            special_tag_class_options: class_options,
            // Keeping it raw for tokenization best results, newlines are
            // meaningful
            normalize_white_spaces: false,
            // important for cases where nothing separates an inline formula
            // from the surrounding words: wrapping keeps the replacement
            // token a word of its own
            wrap_tokens: true,
            normalize_unicode: true,
            ..Default::default()
        };
        proof {
            reveal_strlit("math");
            reveal_strlit("cite");
            reveal_strlit("img");
            reveal_strlit("table");
            reveal_strlit("head");
            reveal_strlit("footer");
            reveal_strlit("ltx_equation");
            reveal_strlit("ltx_equationgroup");
            reveal_strlit("ltx_ref");
            reveal_strlit("ltx_authors");
            reveal_strlit("ltx_TOC");
            reveal_strlit("ltx_note_mark");
            reveal_strlit("ltx_note_outer");
            reveal_strlit("ltx_bibliography");
            reveal_strlit("ltx_tag_figure");
            reveal_strlit("ltx_tag_table");
            assert("math"@.len() == 4);
            assert("cite"@.len() == 4);
            assert("img"@.len() == 3);
            assert("table"@.len() == 5);
            assert("head"@.len() == 4);
            assert("footer"@.len() == 6);
            assert("ltx_equation"@.len() == 12);
            assert("ltx_equationgroup"@.len() == 17);
            assert("ltx_ref"@.len() == 7);
            assert("ltx_authors"@.len() == 11);
            assert("ltx_TOC"@.len() == 7);
            assert("ltx_note_mark"@.len() == 13);
            assert("ltx_note_outer"@.len() == 14);
            assert("ltx_bibliography"@.len() == 16);
            assert("ltx_tag_figure"@.len() == 14);
            assert("ltx_tag_table"@.len() == 13);
            assert("math"@ != "cite"@) by {
                assert("math"@[0] == 'm');
                assert("cite"@[0] == 'c');
            }
            assert("math"@ != "head"@) by {
                assert("math"@[0] == 'm');
                assert("head"@[0] == 'h');
            }
            assert("cite"@ != "head"@) by {
                assert("cite"@[0] == 'c');
                assert("head"@[0] == 'h');
            }
            assert("ltx_ref"@ != "ltx_TOC"@) by {
                assert("ltx_ref"@[4] == 'r');
                assert("ltx_TOC"@[4] == 'T');
            }
            assert("ltx_note_mark"@ != "ltx_tag_table"@) by {
                assert("ltx_note_mark"@[4] == 'n');
                assert("ltx_tag_table"@[4] == 't');
            }
            assert("ltx_note_outer"@ != "ltx_tag_figure"@) by {
                assert("ltx_note_outer"@[4] == 'n');
                assert("ltx_tag_figure"@[4] == 't');
            }
            assert(result.special_tag_name_options@.dom() =~= llamapun_name_keys());
            assert(result.special_tag_class_options@.dom() =~= llamapun_class_keys());
        }
        result
    }

    /// Reports warnings, if the parameter settings don't make sense.
    /// Doesn't check for every possible stupidity
    pub fn check(&self) -> (r: Vec<ParameterWarning>)
        ensures
            r@ == expected_warnings(*self),
    {
        let mut warnings: Vec<ParameterWarning> = Vec::new();
        if self.stem_words_once && self.stem_words_full {
            warnings.push(ParameterWarning::BothStemModes);
        }
        if (self.stem_words_once || self.stem_words_full) && self.convert_to_lowercase {
            warnings.push(ParameterWarning::RedundantLowercase);
        }
        if (self.stem_words_once || self.stem_words_full) && self.support_back_mapping {
            warnings.push(ParameterWarning::BackMappingWithStemming);
        }
        warnings
    }
}

/// The views of a list of class names.
pub open spec fn names_of(classes: Seq<String>) -> Seq<Seq<char>> {
    classes.map_values(|c: String| c@)
}

/// The action for the first class name, in caller-supplied order, that has a
/// rule; `Enter` when none has one.
pub open spec fn resolve_classes(
    class_rules: Map<Seq<char>, SpecialTagsOption>,
    classes: Seq<Seq<char>>,
) -> SpecialTagsOption
    decreases classes.len(),
{
    if classes.len() == 0 {
        SpecialTagsOption::Enter
    } else if class_rules.contains_key(classes.first()) {
        class_rules[classes.first()]
    } else {
        resolve_classes(class_rules, classes.drop_first())
    }
}

/// The action for a node with tag name `tag` and class names `classes`: the
/// tag-name rule when one exists, else the rule of the first matching class
/// name, else `Enter`.
pub open spec fn resolve_spec(
    p: DNMParameters,
    tag: Seq<char>,
    classes: Seq<Seq<char>>,
) -> SpecialTagsOption {
    if p.special_tag_name_options@.contains_key(tag) {
        p.special_tag_name_options@[tag]
    } else {
        resolve_classes(p.special_tag_class_options@, classes)
    }
}

impl DNMParameters {
    /// Decides how a node with the given tag name and class names is
    /// handled. A tag-name rule strictly dominates; otherwise the class
    /// names are probed in the order supplied, and a node matching neither
    /// table is entered.
    pub fn resolve(&self, tag_name: &String, class_names: &Vec<String>) -> (r: SpecialTagsOption)
        ensures
            r == resolve_spec(*self, tag_name@, names_of(class_names@)),
    {
        if let Some(action) = self.special_tag_name_options.get(tag_name) {
            return action.clone();
        }
        let ghost all: Seq<Seq<char>> = names_of(class_names@);
        proof {
            assert(all.skip(0) =~= all);
        }
        let mut i: usize = 0;
        while i < class_names.len()
            invariant
                i <= class_names.len(),
                all == names_of(class_names@),
                !self.special_tag_name_options@.contains_key(tag_name@),
                resolve_classes(self.special_tag_class_options@, all) == resolve_classes(
                    self.special_tag_class_options@,
                    all.skip(i as int),
                ),
            decreases class_names.len() - i,
        {
            proof {
                assert(all.skip(i as int).first() == class_names@[i as int]@);
            }
            if let Some(action) = self.special_tag_class_options.get(&class_names[i]) {
                return action.clone();
            }
            proof {
                assert(all.skip(i as int).drop_first() =~= all.skip(i as int + 1));
            }
            i = i + 1;
        }
        proof {
            assert(all.skip(i as int).len() == 0);
        }
        SpecialTagsOption::Enter
    }
}

/// A tag-name rule strictly dominates: whenever the tag name has a rule, a
/// node resolves to that rule's action, whatever rules its class names may
/// have.
pub proof fn lemma_name_rule_dominates(p: DNMParameters, tag: Seq<char>, classes: Seq<Seq<char>>)
    requires
        p.special_tag_name_options@.contains_key(tag),
    ensures
        resolve_spec(p, tag, classes) == p.special_tag_name_options@[tag],
{
}

/// A node matching neither table resolves to `Enter`.
pub proof fn lemma_unmatched_node_enters(p: DNMParameters, tag: Seq<char>, classes: Seq<Seq<char>>)
    requires
        !p.special_tag_name_options@.contains_key(tag),
        forall|i: int|
            0 <= i < classes.len() ==> !p.special_tag_class_options@.contains_key(classes[i]),
    ensures
        resolve_spec(p, tag, classes) is Enter,
    decreases classes.len(),
{
    if classes.len() > 0 {
        assert(classes[0] == classes.first());
        lemma_unmatched_node_enters(p, tag, classes.drop_first());
    }
}

/// The checker is a pure function of the configuration: any two diagnostic
/// lists that `check`'s contract admits for the same configuration are
/// identical, so checking twice yields the identical list.
pub proof fn lemma_check_deterministic(
    p: DNMParameters,
    r1: Seq<ParameterWarning>,
    r2: Seq<ParameterWarning>,
)
    requires
        r1 == expected_warnings(p),
        r2 == expected_warnings(p),
    ensures
        r1 == r2,
{
}

/// Each diagnostic is emitted exactly on its known-inconsistent flag
/// combination, and a configuration without stemming — such as either named
/// preset — gets no diagnostics at all.
pub proof fn lemma_warning_conditions(p: DNMParameters)
    ensures
        expected_warnings(p).contains(ParameterWarning::BothStemModes) <==> (p.stem_words_once
            && p.stem_words_full),
        expected_warnings(p).contains(ParameterWarning::RedundantLowercase) <==> ((
        p.stem_words_once || p.stem_words_full) && p.convert_to_lowercase),
        expected_warnings(p).contains(ParameterWarning::BackMappingWithStemming) <==> ((
        p.stem_words_once || p.stem_words_full) && p.support_back_mapping),
        !(p.stem_words_once || p.stem_words_full) ==> expected_warnings(p) == Seq::<
            ParameterWarning,
        >::empty(),
{
    let ws = expected_warnings(p);
    if p.stem_words_once && p.stem_words_full {
        assert(ws.contains(ParameterWarning::BothStemModes)) by {
            assert(ws[0] == ParameterWarning::BothStemModes);
        }
    } else {
        assert(!ws.contains(ParameterWarning::BothStemModes)) by {
            assert(forall|i: int|
                0 <= i < ws.len() ==> ws[i] != ParameterWarning::BothStemModes);
        }
    }
    if (p.stem_words_once || p.stem_words_full) && p.convert_to_lowercase {
        let idx: int = if p.stem_words_once && p.stem_words_full {
            1
        } else {
            0
        };
        assert(ws.contains(ParameterWarning::RedundantLowercase)) by {
            assert(ws[idx] == ParameterWarning::RedundantLowercase);
        }
    } else {
        assert(!ws.contains(ParameterWarning::RedundantLowercase)) by {
            assert(forall|i: int|
                0 <= i < ws.len() ==> ws[i] != ParameterWarning::RedundantLowercase);
        }
    }
    if (p.stem_words_once || p.stem_words_full) && p.support_back_mapping {
        assert(ws.contains(ParameterWarning::BackMappingWithStemming)) by {
            assert(ws[ws.len() - 1] == ParameterWarning::BackMappingWithStemming);
        }
    } else {
        assert(!ws.contains(ParameterWarning::BackMappingWithStemming)) by {
            assert(forall|i: int|
                0 <= i < ws.len() ==> ws[i] != ParameterWarning::BackMappingWithStemming);
        }
    }
}

} // verus!
