//! Per-session tool availability and approval: which tools a session may
//! see and call, how a host decision authorizes a call, and how a registry's
//! active tools are checked against an allowlist.

use vstd::prelude::*;

use crate::order::{ascending, insert_distinct, sort_texts, strictly_ascending};
use crate::text::{str_views, string_views, strs_contain, texts_contain};
use crate::tool_errors::{
    ToolRegistryPolicyViolation, ToolRuntimePolicyError, ToolRuntimePolicyErrorView,
};
use crate::tool_types::{
    ToolApprovalDecision, ToolApprovalMode, ToolAvailability, ToolInventoryVisibility,
    ToolRuntimePolicy, ToolVisibility, ToolVisibilityReason,
};

verus! {

broadcast use vstd::seq_lib::group_to_multiset_ensures;

/// Whether a tool of this name is available under `available`.
pub open spec fn tool_allowed(available: ToolAvailability, name: Seq<char>) -> bool {
    match available {
        ToolAvailability::All => true,
        ToolAvailability::NoTools => false,
        ToolAvailability::Only(allowed) => string_views(allowed@).contains(name),
    }
}

/// The outcome of the availability check for a tool.
pub open spec fn allow_outcome(available: ToolAvailability, name: Seq<char>) -> Result<
    (),
    ToolRuntimePolicyErrorView,
> {
    match available {
        ToolAvailability::All => Ok(()),
        ToolAvailability::NoTools => Err(ToolRuntimePolicyErrorView::Unavailable(name)),
        ToolAvailability::Only(allowed) => if string_views(allowed@).contains(name) {
            Ok(())
        } else {
            Err(ToolRuntimePolicyErrorView::NotAllowed(name))
        },
    }
}

/// The outcome of the approval check for a tool, given the host's decision.
pub open spec fn approval_outcome(
    mode: ToolApprovalMode,
    decision: Option<ToolApprovalDecision>,
    name: Seq<char>,
) -> Result<(), ToolRuntimePolicyErrorView> {
    match mode {
        ToolApprovalMode::Auto => Ok(()),
        ToolApprovalMode::Ask => match decision {
            Some(ToolApprovalDecision::Approved) => Ok(()),
            Some(ToolApprovalDecision::Denied { .. }) => Err(
                ToolRuntimePolicyErrorView::Denied(name),
            ),
            None => Err(ToolRuntimePolicyErrorView::RequiresApproval(name)),
        },
        ToolApprovalMode::Deny => Err(ToolRuntimePolicyErrorView::Denied(name)),
    }
}

/// The outcome of authorizing a call: availability first, then approval.
pub open spec fn authorize_outcome(
    policy: ToolRuntimePolicy,
    decision: Option<ToolApprovalDecision>,
    name: Seq<char>,
) -> Result<(), ToolRuntimePolicyErrorView> {
    match allow_outcome(policy.available_tools, name) {
        Err(e) => Err(e),
        Ok(()) => approval_outcome(policy.approval_mode, decision, name),
    }
}

/// The view of a policy check's result.
pub open spec fn check_view(r: Result<(), ToolRuntimePolicyError>) -> Result<
    (),
    ToolRuntimePolicyErrorView,
> {
    match r {
        Ok(()) => Ok(()),
        Err(e) => Err(e@),
    }
}

/// The decision behind an optional reference.
pub open spec fn opt_decision(d: Option<&ToolApprovalDecision>) -> Option<ToolApprovalDecision> {
    match d {
        Some(d) => Some(*d),
        None => None,
    }
}

/// Whether the policy makes the tool available.
pub fn is_tool_available(policy: &ToolRuntimePolicy, tool_name: &str) -> (r: bool)
    ensures
        r == tool_allowed(policy.available_tools, tool_name@),
{
    match &policy.available_tools {
        ToolAvailability::All => true,
        ToolAvailability::NoTools => false,
        ToolAvailability::Only(allowed) => texts_contain(allowed, tool_name),
    }
}

/// Refuses a tool the policy does not make available.
pub fn ensure_tool_allowed(policy: &ToolRuntimePolicy, tool_name: &str) -> (r: Result<
    (),
    ToolRuntimePolicyError,
>)
    ensures
        check_view(r) == allow_outcome(policy.available_tools, tool_name@),
{
    match &policy.available_tools {
        ToolAvailability::All => Ok(()),
        ToolAvailability::NoTools => Err(
            ToolRuntimePolicyError::Unavailable { tool_name: tool_name.to_owned() },
        ),
        ToolAvailability::Only(allowed) => {
            if texts_contain(allowed, tool_name) {
                Ok(())
            } else {
                Err(ToolRuntimePolicyError::NotAllowed { tool_name: tool_name.to_owned() })
            }
        },
    }
}

/// The reason a tool is shown or hidden under `available`.
pub open spec fn visibility_reason(available: ToolAvailability, name: Seq<char>) -> ToolVisibilityReason {
    match available {
        ToolAvailability::All => ToolVisibilityReason::Available,
        ToolAvailability::NoTools => ToolVisibilityReason::UnavailableByPolicy,
        ToolAvailability::Only(allowed) => if string_views(allowed@).contains(name) {
            ToolVisibilityReason::Available
        } else {
            ToolVisibilityReason::NotAllowedByPolicy
        },
    }
}

/// The visibility the policy gives one tool.
pub open spec fn visibility_matches(v: ToolVisibility, policy: ToolRuntimePolicy, name: Seq<char>) -> bool {
    &&& v.name@ == name
    &&& v.reason == visibility_reason(policy.available_tools, name)
    &&& v.visible == (v.reason == ToolVisibilityReason::Available)
    &&& v.approval_mode == policy.approval_mode
}

/// Whether, and why, the policy shows the tool, with its approval mode.
pub fn tool_visibility_for_policy(policy: &ToolRuntimePolicy, tool_name: &str) -> (v:
    ToolVisibility)
    ensures
        visibility_matches(v, *policy, tool_name@),
        v.visible == tool_allowed(policy.available_tools, tool_name@),
{
    let (visible, reason) = match &policy.available_tools {
        ToolAvailability::All => (true, ToolVisibilityReason::Available),
        ToolAvailability::NoTools => (false, ToolVisibilityReason::UnavailableByPolicy),
        ToolAvailability::Only(allowed) => {
            if texts_contain(allowed, tool_name) {
                (true, ToolVisibilityReason::Available)
            } else {
                (false, ToolVisibilityReason::NotAllowedByPolicy)
            }
        },
    };
    ToolVisibility {
        name: tool_name.to_owned(),
        visible,
        reason,
        approval_mode: policy.approval_mode,
    }
}

/// The texts of `allowed` that do not occur in `active`, in order, each as
/// often as it occurs.
pub open spec fn absent_from(allowed: Seq<Seq<char>>, active: Seq<Seq<char>>) -> Seq<Seq<char>>
    decreases allowed.len(),
{
    if allowed.len() == 0 {
        Seq::empty()
    } else if active.contains(allowed.last()) {
        absent_from(allowed.drop_last(), active)
    } else {
        absent_from(allowed.drop_last(), active).push(allowed.last())
    }
}

/// The allowed tools that are not active, as the inventory lists them.
pub open spec fn missing_from_inventory(available: ToolAvailability, active: Seq<Seq<char>>) -> Seq<
    Seq<char>,
> {
    match available {
        ToolAvailability::Only(allowed) => absent_from(string_views(allowed@), active),
        _ => Seq::empty(),
    }
}

/// The visibility of each active tool, and the allowed tools that are not
/// active, sorted (an allowed tool listed twice is listed twice).
pub fn describe_tool_inventory(policy: &ToolRuntimePolicy, active_tools: &[&str]) -> (r:
    ToolInventoryVisibility)
    ensures
        r.tools@.len() == active_tools@.len(),
        forall|i: int|
            0 <= i < active_tools@.len() ==> visibility_matches(
                #[trigger] r.tools@[i],
                *policy,
                active_tools@[i]@,
            ),
        string_views(r.missing_allowed_tools@).to_multiset() == missing_from_inventory(
            policy.available_tools,
            str_views(active_tools@),
        ).to_multiset(),
        ascending(string_views(r.missing_allowed_tools@)),
{
    let mut tools: Vec<ToolVisibility> = Vec::new();
    let mut i: usize = 0;
    while i < active_tools.len()
        invariant
            i <= active_tools@.len(),
            tools@.len() == i,
            forall|k: int|
                0 <= k < i ==> visibility_matches(#[trigger] tools@[k], *policy, active_tools@[k]@),
        decreases active_tools@.len() - i,
    {
        tools.push(tool_visibility_for_policy(policy, active_tools[i]));
        i = i + 1;
    }
    let missing = match &policy.available_tools {
        ToolAvailability::Only(allowed) => {
            let mut absent: Vec<String> = Vec::new();
            let ghost allowed_views = string_views(allowed@);
            let mut j: usize = 0;
            while j < allowed.len()
                invariant
                    j <= allowed@.len(),
                    allowed_views == string_views(allowed@),
                    string_views(absent@) == absent_from(
                        allowed_views.take(j as int),
                        str_views(active_tools@),
                    ),
                decreases allowed@.len() - j,
            {
                let name = allowed[j].as_str();
                proof {
                    assert(allowed_views.take(j + 1).drop_last() =~= allowed_views.take(j as int));
                    assert(allowed_views.take(j + 1).last() == name@);
                }
                if !strs_contain(active_tools, name) {
                    let ghost before = absent@;
                    absent.push(allowed[j].clone());
                    assert(string_views(absent@) =~= string_views(before).push(name@));
                }
                j = j + 1;
            }
            assert(allowed_views.take(j as int) =~= allowed_views);
            sort_texts(absent)
        },
        _ => {
            let empty: Vec<String> = Vec::new();
            assert(string_views(empty@) =~= Seq::<Seq<char>>::empty());
            empty
        },
    };
    ToolInventoryVisibility { tools, missing_allowed_tools: missing }
}

/// How the active tools break an allowlist: the allowed tools that are not
/// active, and the active tools that are not allowed, each listed once.
pub open spec fn violation_of(allowed: Set<Seq<char>>, active: Set<Seq<char>>) -> (
    Set<Seq<char>>,
    Set<Seq<char>>,
) {
    (allowed.difference(active), active.difference(allowed))
}

/// Checks the active tools against an allowlist. Policies without an
/// allowlist accept any registry; with one, the registry must hold exactly
/// the allowed tools, else the violation lists, sorted and without
/// repetition, the allowed tools that are not active and the active tools
/// that are not allowed.
pub fn validate_active_tools_for_policy(policy: &ToolRuntimePolicy, active_tools: &[&str]) -> (r:
    Result<(), ToolRegistryPolicyViolation>)
    ensures
        !(policy.available_tools is Only) ==> r is Ok,
        policy.available_tools matches ToolAvailability::Only(allowed) ==> {
            let (missing, disallowed) = violation_of(
                string_views(allowed@).to_set(),
                str_views(active_tools@).to_set(),
            );
            &&& (r is Ok <==> missing.is_empty() && disallowed.is_empty())
            &&& r matches Err(v) ==> {
                &&& strictly_ascending(string_views(v.missing_allowed@))
                &&& string_views(v.missing_allowed@).to_set() == missing
                &&& strictly_ascending(string_views(v.disallowed_active@))
                &&& string_views(v.disallowed_active@).to_set() == disallowed
            }
        },
{
    let allowed = match &policy.available_tools {
        ToolAvailability::Only(allowed) => allowed,
        _ => return Ok(()),
    };
    let ghost allowed_views = string_views(allowed@);
    let ghost active_views = str_views(active_tools@);
    let mut missing: Vec<String> = Vec::new();
    let mut j: usize = 0;
    proof {
        assert(string_views(missing@).to_set() =~= Set::<Seq<char>>::empty());
    }
    while j < allowed.len()
        invariant
            j <= allowed@.len(),
            allowed_views == string_views(allowed@),
            active_views == str_views(active_tools@),
            strictly_ascending(string_views(missing@)),
            string_views(missing@).to_set() == allowed_views.take(j as int).to_set().difference(
                active_views.to_set(),
            ),
        decreases allowed@.len() - j,
    {
        let name = allowed[j].as_str();
        let ghost prefix = allowed_views.take(j as int);
        proof {
            assert(allowed_views.take(j + 1) =~= prefix.push(name@));
            lemma_push_to_set(prefix, name@);
        }
        if !strs_contain(active_tools, name) {
            insert_distinct(&mut missing, allowed[j].clone());
            assert(string_views(missing@).to_set() =~= prefix.push(name@).to_set().difference(
                active_views.to_set(),
            ));
        } else {
            assert(string_views(missing@).to_set() =~= prefix.push(name@).to_set().difference(
                active_views.to_set(),
            ));
        }
        j = j + 1;
    }
    assert(allowed_views.take(j as int) =~= allowed_views);
    let mut disallowed: Vec<String> = Vec::new();
    let mut k: usize = 0;
    proof {
        assert(string_views(disallowed@).to_set() =~= Set::<Seq<char>>::empty());
    }
    while k < active_tools.len()
        invariant
            k <= active_tools@.len(),
            allowed_views == string_views(allowed@),
            active_views == str_views(active_tools@),
            strictly_ascending(string_views(disallowed@)),
            string_views(disallowed@).to_set() == active_views.take(k as int).to_set().difference(
                allowed_views.to_set(),
            ),
        decreases active_tools@.len() - k,
    {
        let name = active_tools[k];
        let ghost prefix = active_views.take(k as int);
        proof {
            assert(active_views.take(k + 1) =~= prefix.push(name@));
            lemma_push_to_set(prefix, name@);
        }
        if !texts_contain(allowed, name) {
            insert_distinct(&mut disallowed, name.to_owned());
            assert(string_views(disallowed@).to_set() =~= prefix.push(name@).to_set().difference(
                allowed_views.to_set(),
            ));
        } else {
            assert(string_views(disallowed@).to_set() =~= prefix.push(name@).to_set().difference(
                allowed_views.to_set(),
            ));
        }
        k = k + 1;
    }
    assert(active_views.take(k as int) =~= active_views);
    let violation = ToolRegistryPolicyViolation { missing_allowed: missing, disallowed_active: disallowed };
    proof {
        lemma_to_set_empty(string_views(violation.missing_allowed@));
        lemma_to_set_empty(string_views(violation.disallowed_active@));
    }
    if violation.is_empty() {
        Ok(())
    } else {
        Err(violation)
    }
}

proof fn lemma_push_to_set(s: Seq<Seq<char>>, x: Seq<char>)
    ensures
        s.push(x).to_set() == s.to_set().insert(x),
{
    assert forall|y: Seq<char>| s.push(x).to_set().contains(y) == s.to_set().insert(x).contains(y) by {
        if s.push(x).contains(y) {
            let k = choose|k: int| 0 <= k < s.push(x).len() && s.push(x)[k] == y;
            if k < s.len() {
                assert(s[k] == y);
            }
        }
        if s.contains(y) {
            let k = choose|k: int| 0 <= k < s.len() && s[k] == y;
            assert(s.push(x)[k] == y);
        }
        if y == x {
            assert(s.push(x)[s.len() as int] == y);
        }
    }
    assert(s.push(x).to_set() =~= s.to_set().insert(x));
}

proof fn lemma_to_set_empty(s: Seq<Seq<char>>)
    ensures
        s.to_set().is_empty() == (s.len() == 0),
{
    if s.len() > 0 {
        assert(s.to_set().contains(s[0]));
    } else {
        assert(s.to_set() =~= Set::<Seq<char>>::empty());
    }
}

/// Refuses a call the approval mode does not allow without a host decision.
pub fn ensure_dispatch_approved(policy: &ToolRuntimePolicy, tool_name: &str) -> (r: Result<
    (),
    ToolRuntimePolicyError,
>)
    ensures
        check_view(r) == approval_outcome(policy.approval_mode, None, tool_name@),
{
    ensure_dispatch_approved_with_decision(policy, tool_name, None)
}

/// Checks a call against the approval mode: automatic calls pass, denied
/// modes refuse, and asking modes follow the host's decision, refusing
/// until there is one.
pub fn ensure_dispatch_approved_with_decision(
    policy: &ToolRuntimePolicy,
    tool_name: &str,
    decision: Option<&ToolApprovalDecision>,
) -> (r: Result<(), ToolRuntimePolicyError>)
    ensures
        check_view(r) == approval_outcome(policy.approval_mode, opt_decision(decision), tool_name@),
{
    match policy.approval_mode {
        ToolApprovalMode::Auto => Ok(()),
        ToolApprovalMode::Ask => match decision {
            Some(ToolApprovalDecision::Approved) => Ok(()),
            Some(ToolApprovalDecision::Denied { .. }) => Err(
                ToolRuntimePolicyError::Denied { tool_name: tool_name.to_owned() },
            ),
            None => Err(ToolRuntimePolicyError::RequiresApproval { tool_name: tool_name.to_owned() }),
        },
        ToolApprovalMode::Deny => Err(
            ToolRuntimePolicyError::Denied { tool_name: tool_name.to_owned() },
        ),
    }
}

/// Authorizes a call without a host decision.
pub fn authorize_tool_dispatch(policy: &ToolRuntimePolicy, tool_name: &str) -> (r: Result<
    (),
    ToolRuntimePolicyError,
>)
    ensures
        check_view(r) == authorize_outcome(*policy, None, tool_name@),
{
    authorize_tool_dispatch_with_decision(policy, tool_name, None)
}

/// Authorizes a call: the tool must be available, and then approved.
pub fn authorize_tool_dispatch_with_decision(
    policy: &ToolRuntimePolicy,
    tool_name: &str,
    decision: Option<&ToolApprovalDecision>,
) -> (r: Result<(), ToolRuntimePolicyError>)
    ensures
        check_view(r) == authorize_outcome(*policy, opt_decision(decision), tool_name@),
{
    match ensure_tool_allowed(policy, tool_name) {
        Ok(()) => {},
        Err(e) => return Err(e),
    }
    ensure_dispatch_approved_with_decision(policy, tool_name, decision)
}

/// A call is authorized exactly when the tool is available and the approval
/// mode, with the host's decision, lets it through; an unavailable tool is
/// refused whatever the host decides.
pub proof fn law_authorization(
    policy: ToolRuntimePolicy,
    decision: Option<ToolApprovalDecision>,
    name: Seq<char>,
)
    ensures
        authorize_outcome(policy, decision, name) is Ok <==> (tool_allowed(
            policy.available_tools,
            name,
        ) && approval_outcome(policy.approval_mode, decision, name) is Ok),
        !tool_allowed(policy.available_tools, name) ==> authorize_outcome(policy, decision, name)
            == authorize_outcome(policy, None, name),
{
}

/// A tool is visible exactly when the availability check lets it through.
pub proof fn law_visibility_agrees_with_availability(available: ToolAvailability, name: Seq<char>)
    ensures
        (visibility_reason(available, name) == ToolVisibilityReason::Available) == (allow_outcome(
            available,
            name,
        ) is Ok),
        (allow_outcome(available, name) is Ok) == tool_allowed(available, name),
{
}

} // verus!
