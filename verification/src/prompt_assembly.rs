//! Assembly of a system prompt from a base prompt and named sections, and
//! the renderings hosts use to add policy text without copying the base.

use vstd::prelude::*;
use vstd::string::*;

use crate::prompt_policy::{PromptPolicy, SystemPromptExtra};
use crate::text::{
    is_blank, is_white_space, join_non_blank_paragraphs, joined, lemma_joined_empty_iff,
    lemma_non_blank_elements, lemma_trimmed_empty_iff_blank, non_blank, opt_text,
    paragraph_break, str_is_blank, str_views, string_views, trimmed,
};

verus! {

/// One named block of prompt text.
#[derive(Clone, Debug, PartialEq, Eq)]
pub struct PromptSection {
    pub key: String,
    pub content: String,
}

impl PromptSection {
    pub fn new(key: &str, content: &str) -> (s: Self)
        ensures
            s.key@ == key@,
            s.content@ == content@,
    {
        PromptSection { key: key.to_owned(), content: content.to_owned() }
    }

    /// A section is empty when its content is nothing but white space, that
    /// is, when the trimmed content is empty.
    pub fn is_empty(&self) -> (r: bool)
        ensures
            r == is_blank(self.content@),
            r == (trimmed(self.content@).len() == 0),
    {
        proof {
            lemma_trimmed_empty_iff_blank(self.content@);
        }
        str_is_blank(self.content.as_str())
    }
}

/// The contents of a list of sections.
pub open spec fn section_texts(sections: Seq<PromptSection>) -> Seq<Seq<char>> {
    sections.map_values(|s: PromptSection| s.content@)
}

/// `"\n\n# "`, which opens the heading of the additional sections.
pub open spec fn heading_opening() -> Seq<char> {
    seq!['\n', '\n', '#', ' ']
}

/// `":\n\n"`, which closes the heading of the additional sections.
pub open spec fn heading_closing() -> Seq<char> {
    seq![':', '\n', '\n']
}

/// The assembled prompt: the base prompt alone when no section has content,
/// else the base prompt, an empty line, a first-level heading, and the
/// non-blank section contents separated by empty lines.
pub open spec fn rendered_prompt(base: Seq<char>, heading: Seq<char>, texts: Seq<Seq<char>>) -> Seq<
    char,
> {
    let parts = non_blank(texts);
    if parts.len() == 0 {
        base
    } else {
        base + heading_opening() + heading + heading_closing() + joined(parts, paragraph_break())
    }
}

/// `"Additional Instructions"`, the default heading.
pub open spec fn default_heading() -> Seq<char> {
    seq![
        'A', 'd', 'd', 'i', 't', 'i', 'o', 'n', 'a', 'l', ' ',
        'I', 'n', 's', 't', 'r', 'u', 'c', 't', 'i', 'o', 'n', 's'
    ]
}

/// `"Runtime Policy"`, the heading of a policy addendum.
pub open spec fn runtime_policy_heading() -> Seq<char> {
    seq!['R', 'u', 'n', 't', 'i', 'm', 'e', ' ', 'P', 'o', 'l', 'i', 'c', 'y']
}

/// A base prompt with additional named sections under one heading.
#[derive(Clone, Debug, PartialEq, Eq)]
pub struct PromptAssembly {
    pub base_prompt: String,
    pub additional_heading: String,
    pub sections: Vec<PromptSection>,
}

/// The sections made from a policy's extras: each extra's key and instruction.
pub open spec fn sections_match_extras(sections: Seq<PromptSection>, extras: Seq<SystemPromptExtra>) -> bool {
    &&& sections.len() == extras.len()
    &&& forall|i: int|
        0 <= i < sections.len() ==> (#[trigger] sections[i]).key@ == extras[i].key@
            && sections[i].content@ == extras[i].instruction@
}

/// The instructions of a list of extras.
pub open spec fn extra_instructions(extras: Seq<SystemPromptExtra>) -> Seq<Seq<char>> {
    extras.map_values(|e: SystemPromptExtra| e.instruction@)
}

/// The sections of a policy's extras, in order.
fn sections_from_extras(extras: &Vec<SystemPromptExtra>) -> (r: Vec<PromptSection>)
    ensures
        sections_match_extras(r@, extras@),
        section_texts(r@) == extra_instructions(extras@),
{
    let mut r: Vec<PromptSection> = Vec::new();
    let mut i: usize = 0;
    while i < extras.len()
        invariant
            i <= extras.len(),
            r@.len() == i,
            forall|k: int|
                0 <= k < i ==> (#[trigger] r@[k]).key@ == extras@[k].key@ && r@[k].content@
                    == extras@[k].instruction@,
        decreases extras.len() - i,
    {
        let e = &extras[i];
        r.push(PromptSection::new(e.key.as_str(), e.instruction.as_str()));
        i = i + 1;
    }
    assert(section_texts(r@) =~= extra_instructions(extras@));
    r
}

impl PromptAssembly {
    /// The prompt this assembly renders to.
    pub open spec fn rendered(&self) -> Seq<char> {
        rendered_prompt(self.base_prompt@, self.additional_heading@, section_texts(self.sections@))
    }

    pub fn new(base_prompt: &str) -> (a: Self)
        ensures
            a.base_prompt@ == base_prompt@,
            a.additional_heading@ == default_heading(),
            a.sections@.len() == 0,
    {
        proof {
            reveal_strlit("Additional Instructions");
        }
        let a = PromptAssembly {
            base_prompt: base_prompt.to_owned(),
            additional_heading: "Additional Instructions".to_owned(),
            sections: Vec::new(),
        };
        assert(a.additional_heading@ =~= default_heading());
        a
    }

    /// An assembly whose sections are the policy's extras, in order.
    pub fn from_policy(base_prompt: &str, policy: &PromptPolicy) -> (a: Self)
        ensures
            a.base_prompt@ == base_prompt@,
            a.additional_heading@ == default_heading(),
            sections_match_extras(a.sections@, policy.system_prompt_extras@),
            a.rendered() == rendered_prompt(
                base_prompt@,
                default_heading(),
                extra_instructions(policy.system_prompt_extras@),
            ),
    {
        let sections = sections_from_extras(&policy.system_prompt_extras);
        Self::new(base_prompt).with_sections(sections)
    }

    pub fn with_heading(self, heading: &str) -> (a: Self)
        ensures
            a.base_prompt == self.base_prompt,
            a.additional_heading@ == heading@,
            a.sections == self.sections,
    {
        let mut a = self;
        a.additional_heading = heading.to_owned();
        a
    }

    pub fn with_section(self, section: PromptSection) -> (a: Self)
        ensures
            a.base_prompt == self.base_prompt,
            a.additional_heading == self.additional_heading,
            a.sections@ == self.sections@.push(section),
    {
        let mut a = self;
        a.sections.push(section);
        a
    }

    pub fn with_sections(self, sections: Vec<PromptSection>) -> (a: Self)
        ensures
            a.base_prompt == self.base_prompt,
            a.additional_heading == self.additional_heading,
            a.sections@ == self.sections@ + sections@,
    {
        let mut a = self;
        let mut sections = sections;
        a.sections.append(&mut sections);
        a
    }

    pub fn render(&self) -> (r: String)
        ensures
            r@ == self.rendered(),
    {
        let ghost texts = section_texts(self.sections@);
        let mut contents: Vec<String> = Vec::new();
        let mut i: usize = 0;
        while i < self.sections.len()
            invariant
                i <= self.sections.len(),
                texts == section_texts(self.sections@),
                contents@.len() == i,
                forall|k: int| 0 <= k < i ==> #[trigger] contents@[k]@ == texts[k],
            decreases self.sections.len() - i,
        {
            contents.push(self.sections[i].content.clone());
            i = i + 1;
        }
        assert(string_views(contents@) =~= texts);
        render_parts(self.base_prompt.as_str(), self.additional_heading.as_str(), &contents)
    }
}

/// The assembled prompt over the given section contents.
fn render_parts(base: &str, heading: &str, contents: &Vec<String>) -> (r: String)
    ensures
        r@ == rendered_prompt(base@, heading@, string_views(contents@)),
{
    let body = join_non_blank_paragraphs(contents);
    proof {
        lemma_non_blank_elements(string_views(contents@));
        lemma_joined_empty_iff(non_blank(string_views(contents@)), paragraph_break());
    }
    if body.as_str().is_empty() {
        base.to_owned()
    } else {
        let mut out = base.to_owned();
        out.append("\n\n# ");
        out.append(heading);
        out.append(":\n\n");
        out.append(body.as_str());
        proof {
            reveal_strlit("\n\n# ");
            reveal_strlit(":\n\n");
            assert("\n\n# "@ =~= heading_opening());
            assert(":\n\n"@ =~= heading_closing());
        }
        out
    }
}

/// The policy addendum a host appends to its own prompt: absent when no
/// extra has a non-blank instruction, else a "Runtime Policy" heading and the
/// non-blank instructions separated by empty lines.
pub open spec fn policy_addendum(instructions: Seq<Seq<char>>) -> Option<Seq<char>> {
    let parts = non_blank(instructions);
    if parts.len() == 0 {
        None
    } else {
        Some(
            seq!['#', ' '] + runtime_policy_heading() + heading_closing() + joined(
                parts,
                paragraph_break(),
            ),
        )
    }
}

/// Only blank texts leave nothing after the blank ones are dropped.
proof fn lemma_non_blank_empty_iff_all_blank(texts: Seq<Seq<char>>)
    ensures
        non_blank(texts).len() == 0 <==> forall|i: int|
            0 <= i < texts.len() ==> is_blank(#[trigger] texts[i]),
    decreases texts.len(),
{
    if texts.len() > 0 {
        lemma_non_blank_empty_iff_all_blank(texts.drop_last());
        lemma_non_blank_elements(texts.drop_last());
        if forall|i: int| 0 <= i < texts.len() ==> is_blank(#[trigger] texts[i]) {
            assert forall|i: int| 0 <= i < texts.drop_last().len() implies is_blank(
                #[trigger] texts.drop_last()[i],
            ) by {
                assert(texts.drop_last()[i] == texts[i]);
            }
            assert(is_blank(texts[texts.len() - 1]));
        }
        if non_blank(texts).len() == 0 {
            assert forall|i: int| 0 <= i < texts.len() implies is_blank(#[trigger] texts[i]) by {
                if i < texts.len() - 1 {
                    assert(texts.drop_last()[i] == texts[i]);
                }
            }
        }
    }
}

/// The policy addendum is absent exactly when every instruction is blank;
/// an addendum that is given is never blank, and opens with the
/// "# Runtime Policy:" heading.
pub proof fn law_addendum_absent_only_without_instructions(instructions: Seq<Seq<char>>)
    ensures
        policy_addendum(instructions) is None <==> forall|i: int|
            0 <= i < instructions.len() ==> is_blank(#[trigger] instructions[i]),
        policy_addendum(instructions) matches Some(text) ==> {
            &&& !is_blank(text)
            &&& text.len() >= 18
            &&& text.take(18) == seq![
                '#', ' ', 'R', 'u', 'n', 't', 'i', 'm', 'e', ' ', 'P', 'o', 'l', 'i', 'c', 'y', ':',
                '\n',
            ]
        },
{
    lemma_non_blank_empty_iff_all_blank(instructions);
    if let Some(text) = policy_addendum(instructions) {
        assert(text[0] == '#');
        assert(!is_white_space('#'));
        assert(text.take(18) =~= seq![
            '#', ' ', 'R', 'u', 'n', 't', 'i', 'm', 'e', ' ', 'P', 'o', 'l', 'i', 'c', 'y', ':',
            '\n',
        ]);
    }
}

/// Renders the policy's extras under a "Runtime Policy" heading with no base
/// prompt, then drops the leading empty line; nothing when the result is
/// blank.
pub fn render_prompt_policy_addendum(policy: &PromptPolicy) -> (r: Option<String>)
    ensures
        opt_text(r) == policy_addendum(extra_instructions(policy.system_prompt_extras@)),
{
    let sections = sections_from_extras(&policy.system_prompt_extras);
    let assembly = PromptAssembly::new("").with_heading("Runtime Policy").with_sections(sections);
    let rendered = assembly.render();
    proof {
        reveal_strlit("");
        reveal_strlit("Runtime Policy");
        assert(assembly.additional_heading@ =~= runtime_policy_heading());
        assert(assembly.base_prompt@ =~= Seq::<char>::empty());
        assert(section_texts(assembly.sections@) == extra_instructions(
            policy.system_prompt_extras@,
        ));
    }
    let text = rendered.as_str();
    let n = text.unicode_len();
    if n >= 2 && text.get_char(0) == '\n' && text.get_char(1) == '\n' {
        let rest = text.substring_char(2, n);
        if str_is_blank(rest) {
            proof {
                let parts = non_blank(extra_instructions(policy.system_prompt_extras@));
                if parts.len() > 0 {
                    assert(rest@[0] == text@[2]);
                    assert(!is_white_space('#'));
                }
            }
            None
        } else {
            proof {
                let parts = non_blank(extra_instructions(policy.system_prompt_extras@));
                if parts.len() == 0 {
                    assert(text@.len() == 0);
                }
                assert(rest@ =~= seq!['#', ' '] + runtime_policy_heading() + heading_closing()
                    + joined(parts, paragraph_break()));
            }
            Some(rest.to_owned())
        }
    } else {
        proof {
            let parts = non_blank(extra_instructions(policy.system_prompt_extras@));
            if parts.len() > 0 {
                assert(text@[0] == '\n');
                assert(text@[1] == '\n');
            }
        }
        None
    }
}

/// The base prompt with the given instructions as additional sections under
/// the default heading; blank instructions are left out.
pub fn render_additional_instructions(base_prompt: &str, instructions: &[&str]) -> (r: String)
    ensures
        r@ == rendered_prompt(base_prompt@, default_heading(), str_views(instructions@)),
{
    let mut sections: Vec<PromptSection> = Vec::new();
    let mut i: usize = 0;
    while i < instructions.len()
        invariant
            i <= instructions.len(),
            sections@.len() == i,
            forall|k: int| 0 <= k < i ==> #[trigger] sections@[k].content@ == instructions@[k]@,
        decreases instructions.len() - i,
    {
        let mut key = "instruction-".to_owned();
        let index = i.to_string();
        key.append(index.as_str());
        sections.push(PromptSection::new(key.as_str(), instructions[i]));
        i = i + 1;
    }
    assert(section_texts(sections@) =~= str_views(instructions@));
    PromptAssembly::new(base_prompt).with_sections(sections).render()
}

} // verus!
