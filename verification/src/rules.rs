//! The subscription filter builder: the set of bus-level match rules
//! needed to observe a chosen object, or everything the daemon
//! exposes.

use vstd::prelude::*;
use crate::events::BluetoothEvent;
use crate::ids::ObjectId;
use crate::message::{BusMessage, BusMessageV};
use crate::strutil::str_eq;
use vstd::string::*;

verus! {

/// One bus-level filter: either the object manager's object-added
/// signals, or properties-changed signals scoped to a path namespace.
#[derive(Clone, Debug, Eq, PartialEq)]
pub enum MatchRule {
    /// Matches every object-added notification from the daemon's
    /// object manager.
    InterfacesAdded,
    /// Matches properties-changed signals from every object whose path
    /// lies within the given namespace, or from every object when no
    /// namespace is given.
    PropertiesChanged { path_namespace: Option<String> },
}

/// The mathematical value of a [`MatchRule`].
pub enum MatchRuleV {
    InterfacesAdded,
    PropertiesChanged { path_namespace: Option<Seq<char>> },
}

impl DeepView for MatchRule {
    type V = MatchRuleV;

    open spec fn deep_view(&self) -> MatchRuleV {
        match self {
            MatchRule::InterfacesAdded => MatchRuleV::InterfacesAdded,
            MatchRule::PropertiesChanged { path_namespace } => MatchRuleV::PropertiesChanged {
                path_namespace: path_namespace.deep_view(),
            },
        }
    }
}

/// Namespace containment: the path is the namespace itself, or lies
/// strictly below it with a separator at the boundary. A device
/// namespace therefore also covers the device's services and
/// characteristics.
pub open spec fn spec_in_namespace(path: Seq<char>, ns: Seq<char>) -> bool {
    path == ns || (path.len() > ns.len() && path.take(ns.len() as int) == ns && path[ns.len() as int]
        == '/')
}

/// Whether one rule matches one message.
pub open spec fn spec_rule_matches(rule: MatchRuleV, m: BusMessageV) -> bool {
    match rule {
        MatchRuleV::InterfacesAdded => m is InterfacesAdded,
        MatchRuleV::PropertiesChanged { path_namespace } => match m {
            BusMessageV::PropertiesChanged { object_path, .. } => match path_namespace {
                Some(ns) => spec_in_namespace(object_path, ns),
                None => true,
            },
            _ => false,
        },
    }
}

/// Whether some rule of the list matches the message.
pub open spec fn spec_some_rule_matches(rules: Seq<MatchRuleV>, m: BusMessageV) -> bool {
    exists|k: int| 0 <= k < rules.len() && spec_rule_matches(rules[k], m)
}

/// The rules built for an optional target and an object-added
/// interest flag: the object-added rule first when requested, then
/// always one properties-changed rule scoped to the target.
pub open spec fn spec_match_rules(target: Option<Seq<char>>, interfaces_added: bool) -> Seq<
    MatchRuleV,
> {
    (if interfaces_added {
        seq![MatchRuleV::InterfacesAdded]
    } else {
        Seq::empty()
    }) + seq![MatchRuleV::PropertiesChanged { path_namespace: target }]
}

/// A message matches some built rule exactly when it is an
/// object-added notification and those were requested, or a
/// properties-changed signal from within the chosen namespace.
pub proof fn lemma_match_rules_cover(
    target: Option<Seq<char>>,
    interfaces_added: bool,
    m: BusMessageV,
)
    ensures
        spec_some_rule_matches(spec_match_rules(target, interfaces_added), m) <==> match m {
            BusMessageV::InterfacesAdded { .. } => interfaces_added,
            BusMessageV::PropertiesChanged { object_path, .. } => match target {
                Some(ns) => spec_in_namespace(object_path, ns),
                None => true,
            },
            BusMessageV::Other => false,
        },
{
    let rules = spec_match_rules(target, interfaces_added);
    let last = rules.len() - 1;
    assert(rules[last] == (MatchRuleV::PropertiesChanged { path_namespace: target }));
    if interfaces_added {
        assert(rules[0] == MatchRuleV::InterfacesAdded);
    }
    if spec_some_rule_matches(rules, m) {
        let k = choose|k: int| 0 <= k < rules.len() && spec_rule_matches(rules[k], m);
        assert(k == last || (interfaces_added && k == 0));
    }
    match m {
        BusMessageV::InterfacesAdded { .. } => {
            if interfaces_added {
                assert(spec_rule_matches(rules[0], m));
            }
        },
        BusMessageV::PropertiesChanged { object_path, .. } => {
            let matches_ns = match target {
                Some(ns) => spec_in_namespace(object_path, ns),
                None => true,
            };
            if matches_ns {
                assert(spec_rule_matches(rules[last], m));
            }
        },
        BusMessageV::Other => {},
    }
}

/// Tests whether `path` lies within the namespace `ns`.
fn in_namespace(path: &str, ns: &str) -> (r: bool)
    ensures
        r == spec_in_namespace(path@, ns@),
{
    if str_eq(path, ns) {
        return true;
    }
    let plen = path.unicode_len();
    let nlen = ns.unicode_len();
    if plen > nlen && path.get_char(nlen) == '/' {
        str_eq(path.substring_char(0, nlen), ns)
    } else {
        false
    }
}

impl MatchRule {
    /// Whether this rule matches the given message.
    pub fn matches(&self, message: &BusMessage) -> (r: bool)
        ensures
            r == spec_rule_matches(self.deep_view(), message.deep_view()),
    {
        match self {
            MatchRule::InterfacesAdded => matches!(message, BusMessage::InterfacesAdded { .. }),
            MatchRule::PropertiesChanged { path_namespace } => match message {
                BusMessage::PropertiesChanged { object_path, .. } => match path_namespace {
                    Some(ns) => in_namespace(object_path.as_str(), ns.as_str()),
                    None => true,
                },
                _ => false,
            },
        }
    }
}

/// Whether some rule of the list matches the message.
pub fn any_rule_matches(rules: &Vec<MatchRule>, message: &BusMessage) -> (r: bool)
    ensures
        r == spec_some_rule_matches(rules.deep_view(), message.deep_view()),
{
    let mut i: usize = 0;
    while i < rules.len()
        invariant
            0 <= i <= rules.len(),
            forall|k: int| 0 <= k < i ==> !spec_rule_matches(
                rules.deep_view()[k],
                message.deep_view(),
            ),
        decreases rules.len() - i,
    {
        if rules[i].matches(message) {
            proof {
                assert(rules.deep_view()[i as int] == rules@[i as int].deep_view());
                assert(spec_rule_matches(rules.deep_view()[i as int], message.deep_view()));
            }
            return true;
        }
        i += 1;
    }
    false
}

impl BluetoothEvent {
    /// Returns the set of match rules that covers all bus messages
    /// representing Bluetooth events, possibly limited to a particular
    /// object (such as a device, service or characteristic) and all
    /// objects under it.
    ///
    /// Set `interfaces_added` to true to also receive object-added
    /// notifications, which map to device-discovered events.
    pub fn match_rules<O: ObjectId>(object: Option<O>, interfaces_added: bool) -> (rules: Vec<
        MatchRule,
    >)
        ensures
            rules.deep_view() == spec_match_rules(
                match object {
                    Some(o) => Some(o.path_view()),
                    None => None,
                },
                interfaces_added,
            ),
    {
        let ghost target = match &object {
            Some(o) => Some(o.path_view()),
            None => None,
        };
        let mut rules: Vec<MatchRule> = Vec::new();
        if interfaces_added {
            rules.push(MatchRule::InterfacesAdded);
        }
        let path_namespace = match object {
            Some(o) => Some(o.into_object_path()),
            None => None,
        };
        rules.push(MatchRule::PropertiesChanged { path_namespace });
        proof {
            assert(rules.deep_view() =~~= spec_match_rules(target, interfaces_added));
        }
        rules
    }
}

} // verus!
