use std::sync::Arc;

use dnm_policy::dnm::parameters::DNMParameters;
use dnm_policy::dnm::parameters::ParameterWarning;
use dnm_policy::dnm::parameters::ReplacementFunction;
use dnm_policy::dnm::parameters::RuntimeParseData;
use dnm_policy::dnm::parameters::SpecialTagsOption;
use dnm_policy::dnm::parameters::TagRuleTable;

fn resolve_one(params: &DNMParameters, tag: &str, classes: &[&str]) -> SpecialTagsOption {
    let class_names: Vec<String> = classes.iter().map(|c| c.to_string()).collect();
    params.resolve(&tag.to_string(), &class_names)
}

#[test]
fn default_configuration_values() {
    let params = DNMParameters::default();
    assert!(params.special_tag_name_options.is_empty());
    assert!(params.special_tag_class_options.is_empty());
    assert!(params.normalize_white_spaces);
    assert!(!params.wrap_tokens);
    assert!(!params.normalize_unicode);
    assert!(!params.stem_words_once);
    assert!(!params.stem_words_full);
    assert!(!params.convert_to_lowercase);
    assert!(params.support_back_mapping);
}

#[test]
fn domain_preset_flags() {
    let params = DNMParameters::llamapun_normalization();
    assert!(!params.normalize_white_spaces);
    assert!(params.wrap_tokens);
    assert!(params.normalize_unicode);
    assert!(!params.stem_words_once);
    assert!(!params.stem_words_full);
    assert!(!params.convert_to_lowercase);
    assert!(params.support_back_mapping);
}

#[test]
fn domain_preset_name_rules() {
    let params = DNMParameters::llamapun_normalization();
    let expectations = [
        ("math", "SpecialTagsOption {Normalize(mathformula)}"),
        ("cite", "SpecialTagsOption {Normalize(CitationElement)}"),
        ("img", "SpecialTagsOption {Skip}"),
        ("table", "SpecialTagsOption {Skip}"),
        ("head", "SpecialTagsOption {Skip}"),
        ("footer", "SpecialTagsOption {Skip}"),
    ];
    for (tag, description) in expectations {
        let action = params
            .special_tag_name_options
            .get(&tag.to_string())
            .expect("preset should give this tag a rule");
        assert_eq!(action.description(), description);
    }
    assert!(params.special_tag_name_options.get(&"p".to_string()).is_none());
}

#[test]
fn domain_preset_class_rules() {
    let params = DNMParameters::llamapun_normalization();
    let expectations = [
        ("ltx_equation", "SpecialTagsOption {Normalize(\nmathformula\n)}"),
        ("ltx_equationgroup", "SpecialTagsOption {Normalize(\nmathformula\n)}"),
        ("ltx_ref", "SpecialTagsOption {Normalize(REF)}"),
        ("ltx_authors", "SpecialTagsOption {Skip}"),
        ("ltx_TOC", "SpecialTagsOption {Skip}"),
        ("ltx_note_mark", "SpecialTagsOption {Skip}"),
        ("ltx_note_outer", "SpecialTagsOption {Skip}"),
        ("ltx_bibliography", "SpecialTagsOption {Skip}"),
        ("ltx_tag_figure", "SpecialTagsOption {Skip}"),
        ("ltx_tag_table", "SpecialTagsOption {Skip}"),
    ];
    for (class_name, description) in expectations {
        let action = params
            .special_tag_class_options
            .get(&class_name.to_string())
            .expect("preset should give this class a rule");
        assert_eq!(action.description(), description);
    }
    assert!(params.special_tag_class_options.get(&"ltx_para".to_string()).is_none());
}

#[test]
fn math_node_uses_name_rule() {
    let params = DNMParameters::llamapun_normalization();
    let action = resolve_one(&params, "math", &["ltx_Math"]);
    assert!(matches!(action, SpecialTagsOption::Normalize(token) if token == "mathformula"));
}

#[test]
fn name_rule_dominates_class_rule() {
    let mut params = DNMParameters::default();
    params
        .special_tag_name_options
        .insert("span".to_string(), SpecialTagsOption::Normalize("NAME".to_string()));
    params
        .special_tag_class_options
        .insert("noted".to_string(), SpecialTagsOption::Skip);
    let action = resolve_one(&params, "span", &["noted"]);
    assert!(matches!(action, SpecialTagsOption::Normalize(token) if token == "NAME"));
}

#[test]
fn bibliography_class_is_skipped() {
    let params = DNMParameters::llamapun_normalization();
    let action = resolve_one(&params, "div", &["ltx_bibliography"]);
    assert!(matches!(action, SpecialTagsOption::Skip));
}

#[test]
fn unmatched_node_enters() {
    let params = DNMParameters::default();
    let action = resolve_one(&params, "p", &[]);
    assert!(matches!(action, SpecialTagsOption::Enter));
}

#[test]
fn unmatched_classes_enter() {
    let params = DNMParameters::llamapun_normalization();
    let action = resolve_one(&params, "div", &["ltx_para", "ltx_runin"]);
    assert!(matches!(action, SpecialTagsOption::Enter));
}

#[test]
fn first_matching_class_in_caller_order_wins() {
    let mut params = DNMParameters::default();
    params
        .special_tag_class_options
        .insert("alpha".to_string(), SpecialTagsOption::Normalize("A".to_string()));
    params
        .special_tag_class_options
        .insert("beta".to_string(), SpecialTagsOption::Normalize("B".to_string()));
    let forward = resolve_one(&params, "div", &["alpha", "beta"]);
    assert!(matches!(forward, SpecialTagsOption::Normalize(token) if token == "A"));
    let backward = resolve_one(&params, "div", &["beta", "alpha"]);
    assert!(matches!(backward, SpecialTagsOption::Normalize(token) if token == "B"));
}

#[test]
fn later_insert_overrides_earlier() {
    let mut table = TagRuleTable::new();
    table.insert("math".to_string(), SpecialTagsOption::Skip);
    table.insert("math".to_string(), SpecialTagsOption::Normalize("formula".to_string()));
    let action = table.get(&"math".to_string()).expect("rule should exist");
    assert_eq!(action.description(), "SpecialTagsOption {Normalize(formula)}");
}

#[test]
fn check_reports_both_stem_modes() {
    let mut params = DNMParameters::default();
    params.stem_words_once = true;
    params.stem_words_full = true;
    params.support_back_mapping = false;
    assert_eq!(params.check(), vec![ParameterWarning::BothStemModes]);
}

#[test]
fn check_reports_redundant_lowercase() {
    let mut params = DNMParameters::default();
    params.stem_words_full = true;
    params.convert_to_lowercase = true;
    params.support_back_mapping = false;
    assert_eq!(params.check(), vec![ParameterWarning::RedundantLowercase]);
}

#[test]
fn check_reports_back_mapping_with_stemming() {
    let mut params = DNMParameters::default();
    params.stem_words_once = true;
    assert_eq!(params.check(), vec![ParameterWarning::BackMappingWithStemming]);
}

#[test]
fn check_reports_all_three_in_order() {
    let mut params = DNMParameters::default();
    params.stem_words_once = true;
    params.stem_words_full = true;
    params.convert_to_lowercase = true;
    assert_eq!(
        params.check(),
        vec![
            ParameterWarning::BothStemModes,
            ParameterWarning::RedundantLowercase,
            ParameterWarning::BackMappingWithStemming,
        ]
    );
}

#[test]
fn check_accepts_both_presets() {
    assert_eq!(DNMParameters::default().check(), vec![]);
    assert_eq!(DNMParameters::llamapun_normalization().check(), vec![]);
}

#[test]
fn check_twice_yields_identical_diagnostics() {
    let mut params = DNMParameters::default();
    params.stem_words_once = true;
    params.convert_to_lowercase = true;
    assert_eq!(params.check(), params.check());
}

#[test]
fn warning_messages_name_the_options() {
    assert_eq!(
        ParameterWarning::BothStemModes.message(),
        "llamapun::dnm: Parameter options stem_words_once and stem_words_full are both set"
    );
    assert_eq!(
        ParameterWarning::RedundantLowercase.message(),
        "llamapun::dnm: Parameter option convert_to_lowercase is redundant, \
         because stemming converts to lowercase already"
    );
    assert_eq!(
        ParameterWarning::BackMappingWithStemming.message(),
        "llamapun::dnm: Parameter option support_back_mapping does not work \
         in combination with word stemming yet"
    );
}

#[test]
fn runtime_parse_data_initial_state() {
    let data = RuntimeParseData::default();
    assert!(data.had_whitespace);
    assert!(data.chars.is_empty());
}

struct NodeNameReplacer;

impl ReplacementFunction for NodeNameReplacer {
    fn compute_replacement(&self, node: libxml::readonly::RoNode) -> String {
        format!("[{}]", node.get_name())
    }
}

#[test]
fn function_normalize_descriptions() {
    let action = SpecialTagsOption::FunctionNormalize(Arc::new(Box::new(NodeNameReplacer)));
    assert_eq!(action.description(), "SpecialTagsOption {FunctionNormalize}");
    assert_eq!(SpecialTagsOption::Enter.description(), "SpecialTagsOption {Enter}");
    assert_eq!(SpecialTagsOption::Skip.description(), "SpecialTagsOption {Skip}");
}

#[test]
fn resolved_callback_is_shared_not_copied() {
    let mut params = DNMParameters::default();
    let replacer: Arc<Box<dyn ReplacementFunction>> = Arc::new(Box::new(NodeNameReplacer));
    params
        .special_tag_name_options
        .insert("figure".to_string(), SpecialTagsOption::FunctionNormalize(replacer.clone()));
    let action = resolve_one(&params, "figure", &[]);
    let resolved = match action {
        SpecialTagsOption::FunctionNormalize(f) => f,
        _ => panic!("expected the function rule"),
    };
    assert!(Arc::ptr_eq(&resolved, &replacer));

    let parser = libxml::parser::Parser::default();
    let document = parser.parse_string("<figure>body</figure>").expect("well-formed input");
    let root = document.get_root_readonly().expect("document has a root");
    assert_eq!(resolved.compute_replacement(root), "[figure]");
}
