//! User-defined bar modules: a button or text label driven by shell
//! commands, with regex rules for its icon and alert dot.

use crate::pattern::RegexCfg;
use vstd::prelude::*;
use vstd::pervasive::VecAdditionalExecFns;

verus! {

/// How a custom module is drawn.
#[derive(Clone, Copy, Debug, PartialEq, Eq, Structural)]
pub enum CustomModuleType {
    /// Clickable.
    Button,
    /// Display only.
    Text,
}

impl Default for CustomModuleType {
    fn default() -> (t: Self)
        ensures
            t == CustomModuleType::Button,
    {
        CustomModuleType::Button
    }
}

/// One `[[CustomModule]]` entry of the configuration.
#[derive(Clone, Debug)]
pub struct CustomModuleDef {
    pub name: String,
    /// Command run on a left click.
    pub command: Option<String>,
    pub icon: Option<String>,
    /// Command whose output lines (JSON objects with `text` and `alt`) feed
    /// the module.
    pub listen_cmd: Option<String>,
    /// Icon rules: the first rule whose regex matches the current `alt`
    /// replaces `icon`.
    pub icons: Option<IconRules>,
    /// Regex on `alt` that shows the alert dot.
    pub alert: Option<RegexCfg>,
    pub module_type: CustomModuleType,
    pub on_right_click: Option<String>,
    pub on_middle_click: Option<String>,
    pub on_scroll_up: Option<String>,
    pub on_scroll_down: Option<String>,
}

/// No two rules have the same pattern source.
pub open spec fn sources_distinct(rules: Seq<(RegexCfg, String)>) -> bool {
    forall|i: int, j: int|
        0 <= i < j < rules.len() ==> #[trigger] rules[i].0.source() != #[trigger] rules[j].0.source()
}

/// The first position at or after `from` whose rule has pattern source
/// `pattern`.
pub open spec fn rule_with_source(rules: Seq<(RegexCfg, String)>, pattern: Seq<char>, from: int) -> Option<
    int,
>
    decreases rules.len() - from,
{
    if from < 0 || from >= rules.len() {
        None
    } else if rules[from].0.source() == pattern {
        Some(from)
    } else {
        rule_with_source(rules, pattern, from + 1)
    }
}

/// The rules after setting the icon of `pattern`: a rule with the same
/// pattern source is replaced in place, otherwise the rule goes last.
pub open spec fn insert_rule(rules: Seq<(RegexCfg, String)>, pattern: RegexCfg, icon: String) -> Seq<
    (RegexCfg, String),
> {
    match rule_with_source(rules, pattern.source(), 0) {
        Some(i) => rules.update(i, (pattern, icon)),
        None => rules.push((pattern, icon)),
    }
}

/// A position found by `rule_with_source` holds that source, and every
/// position before it (from `from` on) holds another.
pub proof fn lemma_rule_with_source(rules: Seq<(RegexCfg, String)>, pattern: Seq<char>, from: int)
    requires
        0 <= from,
    ensures
        match rule_with_source(rules, pattern, from) {
            Some(i) => from <= i < rules.len() && rules[i].0.source() == pattern,
            None => forall|k: int| from <= k < rules.len() ==> #[trigger] rules[k].0.source() != pattern,
        },
    decreases rules.len() - from,
{
    if from < rules.len() && rules[from].0.source() != pattern {
        lemma_rule_with_source(rules, pattern, from + 1);
    }
}

/// Law: setting an icon keeps every pattern source unique, as the keys of a
/// map are.
pub proof fn law_insert_keeps_sources_distinct(
    rules: Seq<(RegexCfg, String)>,
    pattern: RegexCfg,
    icon: String,
)
    requires
        sources_distinct(rules),
    ensures
        sources_distinct(insert_rule(rules, pattern, icon)),
{
    lemma_rule_with_source(rules, pattern.source(), 0);
    let r = insert_rule(rules, pattern, icon);
    assert forall|i: int, j: int| 0 <= i < j < r.len() implies #[trigger] r[i].0.source()
        != #[trigger] r[j].0.source() by {
        match rule_with_source(rules, pattern.source(), 0) {
            Some(p) => {
                if i == p {
                    assert(rules[j].0.source() != rules[p].0.source());
                } else if j == p {
                    assert(rules[i].0.source() != rules[p].0.source());
                } else {
                    assert(rules[i].0.source() != rules[j].0.source());
                }
            },
            None => {
                if j < rules.len() {
                    assert(rules[i].0.source() != rules[j].0.source());
                }
            },
        }
    }
}

/// Icon rules keyed by their pattern: a regex on `alt` and the icon shown
/// when it matches. No pattern occurs twice. The rules are tried in the
/// order they were set in, which for rules read from the configuration file
/// is the unspecified order of the table they were read into.
#[derive(Debug)]
pub struct IconRules {
    rules: Vec<(RegexCfg, String)>,
}

impl IconRules {
    /// The rules, in the order they are tried.
    pub closed spec fn entries(&self) -> Seq<(RegexCfg, String)> {
        self.rules@
    }

    #[verifier::type_invariant]
    spec fn keyed_by_source(&self) -> bool {
        sources_distinct(self.rules@)
    }

    /// No rules.
    pub fn new() -> (r: IconRules)
        ensures
            r.entries() == Seq::<(RegexCfg, String)>::empty(),
    {
        IconRules { rules: Vec::new() }
    }

    /// Sets the icon shown when `pattern` matches, replacing the icon of a
    /// rule with the same pattern source.
    pub fn insert(&mut self, pattern: RegexCfg, icon: String)
        ensures
            final(self).entries() == insert_rule(old(self).entries(), pattern, icon),
    {
        proof {
            use_type_invariant(&*self);
        }
        let mut rules: Vec<(RegexCfg, String)> = Vec::new();
        std::mem::swap(&mut rules, &mut self.rules);
        let ghost old_rules = rules@;
        proof {
            law_insert_keeps_sources_distinct(old_rules, pattern, icon);
        }
        let n = rules.len();
        let mut k: usize = 0;
        while k < n && !rules[k].0.same_pattern(&pattern)
            invariant
                n == rules@.len(),
                rules@ == old_rules,
                k <= n,
                rule_with_source(old_rules, pattern.source(), 0) == rule_with_source(
                    old_rules,
                    pattern.source(),
                    k as int,
                ),
            decreases n - k,
        {
            k = k + 1;
        }
        if k < n {
            rules.set(k, (pattern, icon));
        } else {
            rules.push((pattern, icon));
        }
        self.rules = rules;
    }

    /// The number of rules.
    pub fn len(&self) -> (n: usize)
        ensures
            n == self.entries().len(),
            sources_distinct(self.entries()),
    {
        proof {
            use_type_invariant(self);
        }
        self.rules.len()
    }

    /// The rule at position `i`.
    pub fn get(&self, i: usize) -> (r: &(RegexCfg, String))
        requires
            i < self.entries().len(),
        ensures
            *r == self.entries()[i as int],
    {
        &self.rules[i]
    }

    /// The rules as a list, in order.
    pub fn into_vec(self) -> (v: Vec<(RegexCfg, String)>)
        ensures
            v@ == self.entries(),
            sources_distinct(v@),
    {
        proof {
            use_type_invariant(&self);
        }
        self.rules
    }
}

impl Clone for IconRules {
    fn clone(&self) -> (c: Self)
        ensures
            c.entries().len() == self.entries().len(),
            forall|i: int|
                0 <= i < self.entries().len() ==> (#[trigger] c.entries()[i]).0.source()
                    == self.entries()[i].0.source() && c.entries()[i].1@ == self.entries()[i].1@,
    {
        proof {
            use_type_invariant(self);
        }
        let mut rules: Vec<(RegexCfg, String)> = Vec::new();
        let n = self.rules.len();
        for k in 0..n
            invariant
                n == self.rules@.len(),
                sources_distinct(self.rules@),
                rules@.len() == k,
                forall|i: int|
                    0 <= i < k ==> (#[trigger] rules@[i]).0.source() == self.rules@[i].0.source()
                        && rules@[i].1@ == self.rules@[i].1@,
        {
            let entry = &self.rules[k];
            rules.push((entry.0.clone(), entry.1.clone()));
        }
        proof {
            assert forall|i: int, j: int| 0 <= i < j < rules@.len() implies #[trigger] rules@[i].0.source()
                != #[trigger] rules@[j].0.source() by {
                assert(self.rules@[i].0.source() != self.rules@[j].0.source());
            }
        }
        IconRules { rules }
    }
}

} // verus!
