use vstd::prelude::*;
use crate::lang::{Lang, lang_of_path, spec_lang_of_path};

verus! {

/// The indices of the rules whose declared language is `file_lang`, kept in
/// the order the rules were given in.
pub open spec fn spec_selected_rules(file_lang: Lang, rule_langs: Seq<Lang>) -> Seq<int>
    decreases rule_langs.len(),
{
    if rule_langs.len() == 0 {
        Seq::empty()
    } else {
        let prefix = spec_selected_rules(file_lang, rule_langs.drop_last());
        if rule_langs.last() == file_lang {
            prefix.push(rule_langs.len() - 1)
        } else {
            prefix
        }
    }
}

/// Gating law: every rule the resolver selects for a file is declared for
/// that file's language — a rule for language L is never handed a file whose
/// inferred language is not L.
pub proof fn lemma_selected_rules_gated(file_lang: Lang, rule_langs: Seq<Lang>)
    ensures
        forall|k: int|
            0 <= k < spec_selected_rules(file_lang, rule_langs).len()
                ==> {
                    let i = #[trigger] spec_selected_rules(file_lang, rule_langs)[k];
                    0 <= i < rule_langs.len() && rule_langs[i] == file_lang
                },
    decreases rule_langs.len(),
{
    if rule_langs.len() > 0 {
        lemma_selected_rules_gated(file_lang, rule_langs.drop_last());
    }
}

/// Completeness of the selection: every rule declared for the file's
/// language is selected, and the selection is strictly ascending, so each
/// matching rule appears exactly once and in the order the rules were given.
pub proof fn lemma_selected_rules_complete(file_lang: Lang, rule_langs: Seq<Lang>)
    ensures
        forall|i: int|
            0 <= i < rule_langs.len() && rule_langs[i] == file_lang
                ==> spec_selected_rules(file_lang, rule_langs).contains(i),
        forall|k: int|
            0 < k < spec_selected_rules(file_lang, rule_langs).len()
                ==> spec_selected_rules(file_lang, rule_langs)[k - 1]
                    < #[trigger] spec_selected_rules(file_lang, rule_langs)[k],
    decreases rule_langs.len(),
{
    let sel = spec_selected_rules(file_lang, rule_langs);
    if rule_langs.len() > 0 {
        let prefix = spec_selected_rules(file_lang, rule_langs.drop_last());
        lemma_selected_rules_complete(file_lang, rule_langs.drop_last());
        lemma_selected_rules_gated(file_lang, rule_langs.drop_last());
        assert forall|i: int|
            0 <= i < rule_langs.len() && rule_langs[i] == file_lang implies sel.contains(i) by {
            if i < rule_langs.len() - 1 {
                assert(rule_langs.drop_last()[i] == rule_langs[i]);
                let k = choose|k: int| 0 <= k < prefix.len() && prefix[k] == i;
                assert(sel[k] == i);
            } else {
                assert(sel.last() == i);
            }
        }
    }
}

/// Selects, in order, the rules that apply to a file of language
/// `file_lang`: exactly those whose declared language equals it.
pub fn rules_for_lang(file_lang: Lang, rule_langs: &Vec<Lang>) -> (r: Vec<usize>)
    ensures
        r@.map_values(|u: usize| u as int) == spec_selected_rules(file_lang, rule_langs@),
{
    let mut r: Vec<usize> = Vec::new();
    let mut i: usize = 0;
    while i < rule_langs.len()
        invariant
            0 <= i <= rule_langs.len(),
            r@.map_values(|u: usize| u as int)
                == spec_selected_rules(file_lang, rule_langs@.take(i as int)),
        decreases rule_langs.len() - i,
    {
        proof {
            assert(rule_langs@.take(i + 1).drop_last() =~= rule_langs@.take(i as int));
            assert(rule_langs@.take(i + 1).last() == rule_langs@[i as int]);
        }
        if rule_langs[i] == file_lang {
            r.push(i);
            proof {
                assert(r@.map_values(|u: usize| u as int)
                    =~= spec_selected_rules(file_lang, rule_langs@.take(i as int)).push(i as int));
            }
        }
        i = i + 1;
    }
    proof {
        assert(rule_langs@.take(rule_langs@.len() as int) =~= rule_langs@);
    }
    r
}

/// The rules applicable to a file path: none at all when the path's
/// extension yields no supported language, and otherwise exactly the rules
/// declared for the inferred language, in their original order.
pub fn rules_for_path(path: &Vec<u8>, rule_langs: &Vec<Lang>) -> (r: Vec<usize>)
    ensures
        match spec_lang_of_path(path@) {
            None => r@.len() == 0,
            Some(l) => r@.map_values(|u: usize| u as int) == spec_selected_rules(l, rule_langs@),
        },
{
    match lang_of_path(path) {
        None => Vec::new(),
        Some(l) => rules_for_lang(l, rule_langs),
    }
}

} // verus!
