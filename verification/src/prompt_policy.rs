//! Prompt policy vocabulary shared by Goose and embedding hosts: system prompt
//! extras, an optional override, the runtime mode and platform, host policy
//! layers, and the target a policy is applied to.

use vstd::prelude::*;
use vstd::string::*;

use crate::text::{
    join_non_blank_paragraphs, joined, lemma_joined_empty_iff, lemma_non_blank_elements, non_blank,
    opt_text, paragraph_break, string_views, trim_white_space, trimmed,
};

verus! {

/// How the runtime decides on tool use.
#[derive(Clone, Copy, Debug, PartialEq, Eq, Structural)]
pub enum RuntimeMode {
    Auto,
    Approve,
    SmartApprove,
    Chat,
}

/// The surface the runtime serves.
#[derive(Clone, Copy, Debug, PartialEq, Eq, Structural)]
pub enum RuntimePlatform {
    Cli,
    Desktop,
}

/// One keyed instruction added to the system prompt.
#[derive(Clone, Debug)]
pub struct SystemPromptExtra {
    pub key: String,
    pub instruction: String,
}

/// The keys and instructions of a list of extras, as text.
pub open spec fn extra_pairs(extras: Seq<SystemPromptExtra>) -> Seq<(Seq<char>, Seq<char>)> {
    extras.map_values(|e: SystemPromptExtra| (e.key@, e.instruction@))
}

/// What a host asks of the system prompt.
#[derive(Clone, Debug)]
pub struct PromptPolicy {
    pub system_prompt_extras: Vec<SystemPromptExtra>,
    pub system_prompt_override: Option<String>,
    pub runtime_mode: RuntimeMode,
    pub runtime_platform: RuntimePlatform,
}

impl PromptPolicy {
    /// The policy's extras as pairs of text.
    pub open spec fn extras_view(&self) -> Seq<(Seq<char>, Seq<char>)> {
        extra_pairs(self.system_prompt_extras@)
    }

    /// The policy's override template as text.
    pub open spec fn override_view(&self) -> Option<Seq<char>> {
        opt_text(self.system_prompt_override)
    }

    pub fn new(runtime_mode: RuntimeMode, runtime_platform: RuntimePlatform) -> (p: Self)
        ensures
            p.extras_view() == Seq::<(Seq<char>, Seq<char>)>::empty(),
            p.system_prompt_override is None,
            p.runtime_mode == runtime_mode,
            p.runtime_platform == runtime_platform,
    {
        let p = PromptPolicy {
            system_prompt_extras: Vec::new(),
            system_prompt_override: None,
            runtime_mode,
            runtime_platform,
        };
        assert(p.extras_view() =~= Seq::<(Seq<char>, Seq<char>)>::empty());
        p
    }

    /// The policy of an interactive chat on the command line.
    pub fn chat() -> (p: Self)
        ensures
            p.extras_view() == Seq::<(Seq<char>, Seq<char>)>::empty(),
            p.system_prompt_override is None,
            p.runtime_mode == RuntimeMode::Chat,
            p.runtime_platform == RuntimePlatform::Cli,
    {
        Self::new(RuntimeMode::Chat, RuntimePlatform::Cli)
    }

    /// Appends one extra.
    pub fn with_extra(self, key: &str, instruction: &str) -> (p: Self)
        ensures
            p.extras_view() == self.extras_view().push((key@, instruction@)),
            p.system_prompt_override == self.system_prompt_override,
            p.runtime_mode == self.runtime_mode,
            p.runtime_platform == self.runtime_platform,
    {
        let mut p = self;
        p.system_prompt_extras.push(
            SystemPromptExtra { key: key.to_owned(), instruction: instruction.to_owned() },
        );
        assert(p.extras_view() =~= self.extras_view().push((key@, instruction@)));
        p
    }

    /// Appends a host policy layer as one extra under the layer's key,
    /// whose instruction is the rendered layer.
    pub fn with_layer(self, layer: PromptPolicyLayer) -> (p: Self)
        ensures
            p.extras_view() == self.extras_view().push((layer.key@, layer.rendered())),
            p.system_prompt_override == self.system_prompt_override,
            p.runtime_mode == self.runtime_mode,
            p.runtime_platform == self.runtime_platform,
    {
        let instruction = layer.render();
        self.with_extra(layer.key.as_str(), instruction.as_str())
    }

    /// Sets the override template.
    pub fn with_override(self, template: &str) -> (p: Self)
        ensures
            p.override_view() == Some(template@),
            p.system_prompt_extras == self.system_prompt_extras,
            p.runtime_mode == self.runtime_mode,
            p.runtime_platform == self.runtime_platform,
    {
        let mut p = self;
        p.system_prompt_override = Some(template.to_owned());
        p
    }

    /// Layers `other` over `self`: its override wins when it has one, its
    /// extras follow ours, and its mode and platform replace ours.
    pub fn merge(self, other: PromptPolicy) -> (p: Self)
        ensures
            p@ == merge_views(self@, other@),
            p.system_prompt_extras@ == self.system_prompt_extras@ + other.system_prompt_extras@,
    {
        let ghost original = other;
        let mut p = self;
        let mut other = other;
        if other.system_prompt_override.is_some() {
            p.system_prompt_override = other.system_prompt_override;
        }
        p.system_prompt_extras.append(&mut other.system_prompt_extras);
        p.runtime_mode = other.runtime_mode;
        p.runtime_platform = other.runtime_platform;
        assert(p.extras_view() =~= self.extras_view() + original.extras_view());
        p
    }
}

/// Merging policies is associative: layering `b` then `c` over `a` gives the
/// same policy as layering the merge of `b` and `c` over `a`.
pub proof fn law_merge_associative(a: PromptPolicyView, b: PromptPolicyView, c: PromptPolicyView)
    ensures
        merge_views(merge_views(a, b), c) == merge_views(a, merge_views(b, c)),
{
    assert((a.extras + b.extras) + c.extras =~= a.extras + (b.extras + c.extras));
}

/// Merging a policy with no extras and no override keeps the extras and the
/// override, and takes the other's mode and platform.
pub proof fn law_merge_with_bare_policy(a: PromptPolicyView, b: PromptPolicyView)
    requires
        b.extras.len() == 0,
        b.override_template is None,
    ensures
        merge_views(a, b).extras == a.extras,
        merge_views(a, b).override_template == a.override_template,
        merge_views(a, b).mode == b.mode,
        merge_views(a, b).platform == b.platform,
{
    assert(a.extras + b.extras =~= a.extras);
}

/// The meaning of a policy: its extras and override as text, its mode and
/// platform.
pub struct PromptPolicyView {
    pub extras: Seq<(Seq<char>, Seq<char>)>,
    pub override_template: Option<Seq<char>>,
    pub mode: RuntimeMode,
    pub platform: RuntimePlatform,
}

/// `b` layered over `a`.
pub open spec fn merge_views(a: PromptPolicyView, b: PromptPolicyView) -> PromptPolicyView {
    PromptPolicyView {
        extras: a.extras + b.extras,
        override_template: if b.override_template is Some {
            b.override_template
        } else {
            a.override_template
        },
        mode: b.mode,
        platform: b.platform,
    }
}

impl View for PromptPolicy {
    type V = PromptPolicyView;

    open spec fn view(&self) -> PromptPolicyView {
        PromptPolicyView {
            extras: self.extras_view(),
            override_template: self.override_view(),
            mode: self.runtime_mode,
            platform: self.runtime_platform,
        }
    }
}

/// A titled group of host instructions that becomes one prompt extra.
#[derive(Clone, Debug, PartialEq, Eq)]
pub struct PromptPolicyLayer {
    pub key: String,
    pub title: Option<String>,
    pub instructions: Vec<String>,
}

/// The instructions of a layer that survive rendering: trimmed, and not empty.
pub open spec fn kept_instructions(instructions: Seq<Seq<char>>) -> Seq<Seq<char>> {
    non_blank(trimmed_each(instructions))
}

/// Each text trimmed.
pub open spec fn trimmed_each(texts: Seq<Seq<char>>) -> Seq<Seq<char>> {
    texts.map_values(|s: Seq<char>| trimmed(s))
}

/// The text of a layer: a second-level heading with the title, when there is
/// one, and the kept instructions, separated by empty lines.
pub open spec fn rendered_layer(title: Option<Seq<char>>, instructions: Seq<Seq<char>>) -> Seq<char> {
    let kept = kept_instructions(instructions);
    let body = joined(kept, paragraph_break());
    match title {
        Some(t) => if kept.len() == 0 {
            seq!['#', '#', ' '] + t
        } else {
            seq!['#', '#', ' '] + t + paragraph_break() + body
        },
        None => body,
    }
}

impl PromptPolicyLayer {
    /// The rendered text of this layer.
    pub open spec fn rendered(&self) -> Seq<char> {
        rendered_layer(opt_text(self.title), string_views(self.instructions@))
    }

    pub fn new(key: &str) -> (l: Self)
        ensures
            l.key@ == key@,
            l.title is None,
            l.instructions@.len() == 0,
    {
        PromptPolicyLayer { key: key.to_owned(), title: None, instructions: Vec::new() }
    }

    pub fn with_title(self, title: &str) -> (l: Self)
        ensures
            l.key == self.key,
            opt_text(l.title) == Some(title@),
            l.instructions == self.instructions,
    {
        let mut l = self;
        l.title = Some(title.to_owned());
        l
    }

    pub fn with_instruction(self, instruction: &str) -> (l: Self)
        ensures
            l.key == self.key,
            l.title == self.title,
            string_views(l.instructions@) == string_views(self.instructions@).push(instruction@),
    {
        let mut l = self;
        l.instructions.push(instruction.to_owned());
        assert(string_views(l.instructions@) =~= string_views(self.instructions@).push(
            instruction@,
        ));
        l
    }

    pub fn render(&self) -> (r: String)
        ensures
            r@ == self.rendered(),
    {
        let ghost views = string_views(self.instructions@);
        let mut trimmed_all: Vec<String> = Vec::new();
        let mut i: usize = 0;
        while i < self.instructions.len()
            invariant
                i <= self.instructions.len(),
                views == string_views(self.instructions@),
                views.len() == self.instructions@.len(),
                trimmed_all@.len() == i,
                forall|k: int| 0 <= k < i ==> #[trigger] trimmed_all@[k]@ == trimmed(views[k]),
            decreases self.instructions.len() - i,
        {
            let t = trim_white_space(self.instructions[i].as_str());
            assert(views[i as int] == self.instructions@[i as int]@);
            trimmed_all.push(t);
            i = i + 1;
        }
        assert(string_views(trimmed_all@) =~= trimmed_each(views));
        let body = join_non_blank_paragraphs(&trimmed_all);
        let ghost kept = kept_instructions(views);
        match &self.title {
            Some(title) => {
                let mut out = String::new();
                out.append("## ");
                out.append(title.as_str());
                proof {
                    reveal_strlit("## ");
                    reveal_strlit("\n\n");
                    assert("## "@ =~= seq!['#', '#', ' ']);
                    assert("\n\n"@ =~= paragraph_break());
                    lemma_non_blank_elements(trimmed_each(views));
                    lemma_joined_empty_iff(kept, paragraph_break());
                }
                if body.as_str().is_empty() {
                    assert(out@ =~= self.rendered());
                    out
                } else {
                    out.append("\n\n");
                    out.append(body.as_str());
                    assert(out@ =~= self.rendered());
                    out
                }
            },
            None => body,
        }
    }
}

/// One thing a policy hands to its target: the override template, or one
/// keyed extra.
pub enum PolicyCall {
    SetOverride(Seq<char>),
    AddExtra(Seq<char>, Seq<char>),
}

/// What applying `policy` hands to a target, in order: the override first,
/// once, when the policy has one, then each extra in order, and nothing else.
pub open spec fn policy_calls_of(policy: PromptPolicy) -> Seq<PolicyCall> {
    (match policy.override_view() {
        Some(t) => seq![PolicyCall::SetOverride(t)],
        None => Seq::empty(),
    }) + policy.extras_view().map_values(|e: (Seq<char>, Seq<char>)| PolicyCall::AddExtra(e.0, e.1))
}

/// A prompt that a policy can be applied to. The spec functions are the
/// record of what the policy has handed to the target: the override and
/// extras it holds, and every call it received, in order; a verified target
/// defines them over its own state.
pub trait PromptPolicyTarget {
    /// The override template the target has been given, if any.
    closed spec fn policy_override(&self) -> Option<Seq<char>> {
        vstd::pervasive::arbitrary()
    }

    /// The keyed extras the target has been given, in order.
    closed spec fn policy_extras(&self) -> Seq<(Seq<char>, Seq<char>)> {
        vstd::pervasive::arbitrary()
    }

    /// Every call the target has received, in order.
    closed spec fn policy_calls(&self) -> Seq<PolicyCall> {
        vstd::pervasive::arbitrary()
    }

    fn set_system_prompt_override_from_policy(&mut self, template: String)
        ensures
            final(self).policy_override() == Some(template@),
            final(self).policy_extras() == old(self).policy_extras(),
            final(self).policy_calls() == old(self).policy_calls().push(
                PolicyCall::SetOverride(template@),
            ),
    ;

    fn add_system_prompt_extra_from_policy(&mut self, key: String, instruction: String)
        ensures
            final(self).policy_override() == old(self).policy_override(),
            final(self).policy_extras() == old(self).policy_extras().push((key@, instruction@)),
            final(self).policy_calls() == old(self).policy_calls().push(
                PolicyCall::AddExtra(key@, instruction@),
            ),
    ;
}

/// Anything a prompt policy can be applied to.
pub trait PromptPolicyApplier {
    fn apply_prompt_policy(&mut self, policy: &PromptPolicy);
}

impl<T: PromptPolicyTarget> PromptPolicyApplier for T {
    /// Applies the policy as `apply_prompt_policy_to_target` does.
    fn apply_prompt_policy(&mut self, policy: &PromptPolicy)
        ensures
            final(self).policy_override() == (if policy.system_prompt_override is Some {
                policy.override_view()
            } else {
                old(self).policy_override()
            }),
            final(self).policy_extras() == old(self).policy_extras() + policy.extras_view(),
            final(self).policy_calls() == old(self).policy_calls() + policy_calls_of(*policy),
    {
        apply_prompt_policy_to_target(self, policy);
    }
}

/// Hands the policy's override, when it has one, and then each of its extras
/// in order to the target, and nothing else.
pub fn apply_prompt_policy_to_target<T: PromptPolicyTarget>(target: &mut T, policy: &PromptPolicy)
    ensures
        final(target).policy_override() == (if policy.system_prompt_override is Some {
            policy.override_view()
        } else {
            old(target).policy_override()
        }),
        final(target).policy_extras() == old(target).policy_extras() + policy.extras_view(),
        final(target).policy_calls() == old(target).policy_calls() + policy_calls_of(*policy),
{
    let ghost first: Seq<PolicyCall> = match policy.override_view() {
        Some(t) => seq![PolicyCall::SetOverride(t)],
        None => Seq::empty(),
    };
    let ghost extra_calls = policy.extras_view().map_values(
        |e: (Seq<char>, Seq<char>)| PolicyCall::AddExtra(e.0, e.1),
    );
    if let Some(template) = &policy.system_prompt_override {
        target.set_system_prompt_override_from_policy(template.clone());
    }
    assert(target.policy_calls() =~= old(target).policy_calls() + first);
    let ghost start = target.policy_calls();
    let ghost mid = target.policy_extras();
    let mut i: usize = 0;
    while i < policy.system_prompt_extras.len()
        invariant
            i <= policy.system_prompt_extras.len(),
            target.policy_override() == (if policy.system_prompt_override is Some {
                policy.override_view()
            } else {
                old(target).policy_override()
            }),
            mid == old(target).policy_extras(),
            target.policy_extras() == mid + policy.extras_view().take(i as int),
            start == old(target).policy_calls() + first,
            extra_calls == policy.extras_view().map_values(
                |e: (Seq<char>, Seq<char>)| PolicyCall::AddExtra(e.0, e.1),
            ),
            target.policy_calls() == start + extra_calls.take(i as int),
        decreases policy.system_prompt_extras.len() - i,
    {
        let extra = &policy.system_prompt_extras[i];
        target.add_system_prompt_extra_from_policy(extra.key.clone(), extra.instruction.clone());
        assert(policy.extras_view().take(i + 1) =~= policy.extras_view().take(i as int).push(
            policy.extras_view()[i as int],
        ));
        assert(extra_calls.take(i + 1) =~= extra_calls.take(i as int).push(extra_calls[i as int]));
        i = i + 1;
    }
    assert(policy.extras_view().take(i as int) =~= policy.extras_view());
    assert(extra_calls.take(i as int) =~= extra_calls);
    assert(start + extra_calls =~= old(target).policy_calls() + policy_calls_of(*policy));
}

} // verus!
