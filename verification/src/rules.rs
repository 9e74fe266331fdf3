//! Per-library rule evaluation.
//!
//! A library (or argument) may carry an ordered list of rules, each an
//! `allow` or `disallow` action with an optional OS condition. A rule with
//! no condition matches every host; one with an OS name matches hosts of
//! that OS. An `allow` rule whose condition does not match forces
//! exclusion, as does a `disallow` rule whose condition does match; a rule
//! list is permissive when no rule forces exclusion, and an empty or absent
//! list always permits.

use vstd::prelude::*;
use crate::platform::HostPlatform;
use crate::text::{str_chars, chars_eq};

verus! {

/// Condition of a rule: an optional OS name to match.
#[derive(Clone, Debug)]
pub struct OsRule {
    pub name: Option<String>,
}

/// One allow/disallow gate.
#[derive(Clone, Debug)]
pub struct Rule {
    pub action: String,
    pub os: Option<OsRule>,
}

#[verifier::ext_equal]
pub struct OsRuleView {
    pub name: Option<Seq<char>>,
}

#[verifier::ext_equal]
pub struct RuleView {
    pub action: Seq<char>,
    pub os: Option<OsRuleView>,
}

impl View for OsRule {
    type V = OsRuleView;

    open spec fn view(&self) -> OsRuleView {
        OsRuleView {
            name: match self.name {
                Some(n) => Some(n@),
                None => None,
            },
        }
    }
}

impl View for Rule {
    type V = RuleView;

    open spec fn view(&self) -> RuleView {
        RuleView {
            action: self.action@,
            os: match self.os {
                Some(o) => Some(o@),
                None => None,
            },
        }
    }
}

impl RuleView {
    /// Whether this rule's condition matches the host.
    pub open spec fn matches_host(self, host: HostPlatform) -> bool {
        match self.os {
            None => true,
            Some(o) => match o.name {
                None => true,
                Some(n) => n == host.os.key_spec(),
            },
        }
    }

    /// Whether this rule forces the library's exclusion on the host.
    pub open spec fn excludes(self, host: HostPlatform) -> bool {
        (self.action == "allow"@ && !self.matches_host(host)) || (self.action == "disallow"@
            && self.matches_host(host))
    }
}

/// Whether a rule list permits inclusion: no rule forces exclusion.
pub open spec fn rules_permit(rules: Seq<RuleView>, host: HostPlatform) -> bool {
    forall|i: int| 0 <= i < rules.len() ==> !(#[trigger] rules[i]).excludes(host)
}

/// An absent rule list permits; a present one is evaluated.
pub open spec fn opt_rules_permit(rules: Option<Seq<RuleView>>, host: HostPlatform) -> bool {
    match rules {
        None => true,
        Some(rs) => rules_permit(rs, host),
    }
}

impl Rule {
    /// Evaluate this rule's condition against the host.
    pub fn eval_matches_host(&self, host: &HostPlatform) -> (r: bool)
        ensures
            r == self@.matches_host(*host),
    {
        match &self.os {
            None => true,
            Some(o) => match &o.name {
                None => true,
                Some(n) => {
                    let nc = str_chars(n.as_str());
                    let kc = str_chars(host.os.key());
                    chars_eq(&nc, &kc)
                },
            },
        }
    }

    /// Whether this rule forces exclusion on the host.
    pub fn eval_excludes(&self, host: &HostPlatform) -> (r: bool)
        ensures
            r == self@.excludes(*host),
    {
        let m = self.eval_matches_host(host);
        let ac = str_chars(self.action.as_str());
        let allow_c = str_chars("allow");
        let disallow_c = str_chars("disallow");
        (chars_eq(&ac, &allow_c) && !m) || (chars_eq(&ac, &disallow_c) && m)
    }
}

/// The view of a rule vector.
pub open spec fn rules_view(rules: Seq<Rule>) -> Seq<RuleView> {
    rules.map_values(|r: Rule| r@)
}

/// Evaluate a rule list: true when every rule permits.
pub fn eval_rules_permit(rules: &Vec<Rule>, host: &HostPlatform) -> (r: bool)
    ensures
        r == rules_permit(rules_view(rules@), *host),
{
    let mut i: usize = 0;
    while i < rules.len()
        invariant
            i <= rules@.len(),
            forall|j: int| 0 <= j < i ==> !(#[trigger] rules_view(rules@)[j]).excludes(*host),
        decreases rules@.len() - i,
    {
        if rules[i].eval_excludes(host) {
            proof {
                assert(rules_view(rules@)[i as int].excludes(*host));
            }
            return false;
        }
        i = i + 1;
    }
    true
}

/// Evaluate an optional rule list; absence permits.
pub fn eval_opt_rules_permit(rules: &Option<Vec<Rule>>, host: &HostPlatform) -> (r: bool)
    ensures
        r == opt_rules_permit(
            match rules {
                Some(rs) => Some(rules_view(rs@)),
                None => None,
            },
            *host,
        ),
{
    match rules {
        None => true,
        Some(rs) => eval_rules_permit(rs, host),
    }
}

} // verus!
