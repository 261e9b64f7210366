//! Tool registries and the agent manager's view of them: registering tools,
//! looking them up, and rendering the tool list the planner reads.
use vstd::prelude::*;
use crate::catalogue::{
    discord_tool, discord_tool_names, discord_tool_prompts, lemma_catalogue_names_distinct,
    lemma_catalogue_prompts_nonempty,
    universal_tool, universal_tool_names, universal_tool_prompts,
};
use crate::dispatch::Services;
use crate::models::{TemplateView, ToolTemplate};
use crate::text::{append_chars, append_str, chars_of, eq_chars, owned, string_of};

verus! {

// ───────────────────────── registry model ─────────────────────────

/// The first position, from `i` on, of a template named `name`.
pub open spec fn position_from(s: Seq<TemplateView>, name: Seq<char>, i: int) -> Option<int>
    decreases s.len() - i,
{
    if i < 0 || i >= s.len() {
        None
    } else if s[i].name == name {
        Some(i)
    } else {
        position_from(s, name, i + 1)
    }
}

/// The position of the template named `name`.
pub open spec fn position_of(s: Seq<TemplateView>, name: Seq<char>) -> Option<int> {
    position_from(s, name, 0)
}

/// The template registered under `name`.
pub open spec fn lookup(s: Seq<TemplateView>, name: Seq<char>) -> Option<TemplateView> {
    match position_of(s, name) {
        Some(i) => Some(s[i]),
        None => None,
    }
}

/// No two templates share a name.
pub open spec fn names_unique(s: Seq<TemplateView>) -> bool {
    forall|i: int, j: int| 0 <= i < j < s.len() ==> s[i].name != s[j].name
}

/// The registry after registering `t`: it replaces the template of the same
/// name in place, or is appended.
pub open spec fn spec_register(s: Seq<TemplateView>, t: TemplateView) -> Seq<TemplateView> {
    match position_of(s, t.name) {
        Some(i) => s.update(i, t),
        None => s.push(t),
    }
}

/// The registry obtained by registering each of `ts` in order, starting from `s`.
pub open spec fn register_all(s: Seq<TemplateView>, ts: Seq<TemplateView>) -> Seq<TemplateView>
    decreases ts.len(),
{
    if ts.len() == 0 {
        s
    } else {
        spec_register(register_all(s, ts.drop_last()), ts.last())
    }
}

proof fn lemma_position_from(s: Seq<TemplateView>, name: Seq<char>, i: int)
    requires
        0 <= i,
    ensures
        match position_from(s, name, i) {
            Some(k) => i <= k < s.len() && s[k].name == name && forall|j: int|
                i <= j < k ==> s[j].name != name,
            None => forall|j: int| i <= j < s.len() ==> s[j].name != name,
        },
    decreases s.len() - i,
{
    if i < s.len() && s[i].name != name {
        lemma_position_from(s, name, i + 1);
    }
}

/// The position of a name is where it occurs, and is absent exactly when the
/// name is.
pub proof fn lemma_position(s: Seq<TemplateView>, name: Seq<char>)
    ensures
        match position_of(s, name) {
            Some(k) => 0 <= k < s.len() && s[k].name == name && forall|j: int|
                0 <= j < k ==> s[j].name != name,
            None => forall|j: int| 0 <= j < s.len() ==> s[j].name != name,
        },
{
    lemma_position_from(s, name, 0);
}

/// In a registry with unique names, a name found at `k` has position `k`.
pub proof fn lemma_position_unique(s: Seq<TemplateView>, name: Seq<char>, k: int)
    requires
        names_unique(s),
        0 <= k < s.len(),
        s[k].name == name,
    ensures
        position_of(s, name) == Some(k),
{
    lemma_position(s, name);
}

/// Registering keeps names unique.
pub proof fn lemma_register_unique(s: Seq<TemplateView>, t: TemplateView)
    requires
        names_unique(s),
    ensures
        names_unique(spec_register(s, t)),
{
    lemma_position(s, t.name);
}

/// Registering a template makes it the one found under its name and leaves
/// every other name's template as it was.
pub proof fn lemma_register_lookup(s: Seq<TemplateView>, t: TemplateView, other: Seq<char>)
    requires
        names_unique(s),
    ensures
        lookup(spec_register(s, t), t.name) == Some(t),
        other != t.name ==> lookup(spec_register(s, t), other) == lookup(s, other),
{
    lemma_position(s, t.name);
    lemma_register_unique(s, t);
    let r = spec_register(s, t);
    lemma_position(r, t.name);
    lemma_position(r, other);
    lemma_position(s, other);
    match position_of(s, t.name) {
        Some(i) => {
            lemma_position_unique(r, t.name, i);
            if other != t.name {
                match position_of(s, other) {
                    Some(k) => {
                        lemma_position_unique(r, other, k);
                    },
                    None => {},
                }
            }
        },
        None => {
            lemma_position_unique(r, t.name, s.len() as int);
            if other != t.name {
                match position_of(s, other) {
                    Some(k) => {
                        lemma_position_unique(r, other, k);
                    },
                    None => {},
                }
            }
        },
    }
}

// ───────────────────────── the registry ─────────────────────────

/// Tool templates keyed by name.
pub struct ToolRegistry {
    entries: Vec<ToolTemplate>,
}

/// The abstract value of a list of templates.
pub open spec fn templates_view(v: Seq<ToolTemplate>) -> Seq<TemplateView> {
    v.map_values(|t: ToolTemplate| t@)
}

impl View for ToolRegistry {
    type V = Seq<TemplateView>;

    closed spec fn view(&self) -> Seq<TemplateView> {
        templates_view(self.entries@)
    }
}

impl ToolRegistry {
    #[verifier::type_invariant]
    spec fn inv(self) -> bool {
        names_unique(templates_view(self.entries@))
    }

    /// An empty registry.
    pub fn new() -> (r: ToolRegistry)
        ensures
            r@ == Seq::<TemplateView>::empty(),
    {
        let r = ToolRegistry { entries: Vec::new() };
        assert(templates_view(r.entries@) =~= Seq::<TemplateView>::empty());
        r
    }

    /// The number of registered templates; their names are distinct.
    pub fn len(&self) -> (r: usize)
        ensures
            r == self@.len(),
            names_unique(self@),
    {
        proof {
            use_type_invariant(self);
        }
        self.entries.len()
    }

    /// The position of the template named `name`.
    fn position(&self, name: &[char]) -> (r: Option<usize>)
        ensures
            match r {
                Some(k) => position_of(self@, name@) == Some(k as int),
                None => position_of(self@, name@) is None,
            },
            r matches Some(k) ==> k < self.entries@.len() && self@[k as int] == self.entries@[k as int]@,
    {
        proof {
            lemma_position(self@, name@);
        }
        let mut i: usize = 0;
        while i < self.entries.len()
            invariant
                i <= self.entries@.len(),
                self@ == templates_view(self.entries@),
                position_of(self@, name@) == position_from(self@, name@, i as int),
            decreases self.entries.len() - i,
        {
            let n = chars_of(self.entries[i].name.as_str());
            if eq_chars(n.as_slice(), name) {
                return Some(i);
            }
            i = i + 1;
        }
        None
    }

    /// Register `template`, replacing the template of the same name if there
    /// is one.
    pub fn register(&mut self, template: ToolTemplate)
        ensures
            final(self)@ == spec_register(old(self)@, template@),
            names_unique(old(self)@),
            names_unique(final(self)@),
    {
        proof {
            use_type_invariant(&*self);
            lemma_register_unique(self@, template@);
        }
        let name = chars_of(template.name.as_str());
        let pos = self.position(name.as_slice());
        let ghost before = self.entries@;
        let mut entries: Vec<ToolTemplate> = Vec::new();
        std::mem::swap(&mut entries, &mut self.entries);
        match pos {
            Some(i) => {
                entries.set(i, template);
                assert(templates_view(entries@) =~= templates_view(before).update(
                    i as int,
                    template@,
                ));
            },
            None => {
                entries.push(template);
                assert(templates_view(entries@) =~= templates_view(before).push(template@));
            },
        }
        self.entries = entries;
    }

    /// A copy of the template registered under `name`.
    pub fn get(&self, name: &str) -> (r: Option<ToolTemplate>)
        ensures
            match lookup(self@, name@) {
                Some(t) => r matches Some(x) && x@ == t,
                None => r is None,
            },
            names_unique(self@),
    {
        proof {
            use_type_invariant(self);
        }
        let n = chars_of(name);
        match self.position(n.as_slice()) {
            Some(i) => Some(self.entries[i].duplicate()),
            None => None,
        }
    }

    /// The registered names, in registry order.
    pub fn names(&self) -> (r: Vec<String>)
        ensures
            r@.len() == self@.len(),
            forall|i: int| 0 <= i < r@.len() ==> #[trigger] r@[i]@ == self@[i].name,
    {
        let mut r: Vec<String> = Vec::new();
        let mut i: usize = 0;
        while i < self.entries.len()
            invariant
                i <= self.entries@.len(),
                self@ == templates_view(self.entries@),
                r@.len() == i,
                forall|j: int| 0 <= j < i ==> #[trigger] r@[j]@ == self@[j].name,
            decreases self.entries.len() - i,
        {
            r.push(self.entries[i].name.clone());
            i = i + 1;
        }
        r
    }

    /// The entry at position `k`.
    fn entry(&self, k: usize) -> (r: &ToolTemplate)
        requires
            k < self@.len(),
        ensures
            r@ == self@[k as int],
    {
        &self.entries[k]
    }
}

// ───────────────────────── planner text ─────────────────────────

/// The tools that moderate the agent's own conduct; they are hidden from the
/// planner during autonomy so the agent does not test them on itself.
pub open spec fn moderation_tool_names() -> Seq<Seq<char>> {
    seq![
        "refuse_request"@,
        "disengage"@,
        "mute_user"@,
        "set_boundary"@,
        "block_topic"@,
        "escalate_to_admin"@,
        "report_concern"@,
        "rate_limit_user"@,
        "request_consent"@,
        "wellbeing_status"@,
    ]
}

pub fn moderation_tool_name(k: usize) -> (r: &'static str)
    requires
        k < 10,
    ensures
        r@ == moderation_tool_names()[k as int],
{
    match k {
        0 => "refuse_request",
        1 => "disengage",
        2 => "mute_user",
        3 => "set_boundary",
        4 => "block_topic",
        5 => "escalate_to_admin",
        6 => "report_concern",
        7 => "rate_limit_user",
        8 => "request_consent",
        _ => "wellbeing_status",
    }
}

/// Whether `name` is one of the moderation tools.
pub fn is_moderation_tool(name: &[char]) -> (r: bool)
    ensures
        r == moderation_tool_names().contains(name@),
{
    let mut k: usize = 0;
    while k < 10
        invariant
            k <= 10,
            forall|j: int| 0 <= j < k ==> moderation_tool_names()[j] != name@,
        decreases 10 - k,
    {
        let m = chars_of(moderation_tool_name(k));
        if eq_chars(m.as_slice(), name) {
            assert(moderation_tool_names()[k as int] == name@);
            return true;
        }
        k = k + 1;
    }
    assert(!moderation_tool_names().contains(name@)) by {
        if moderation_tool_names().contains(name@) {
            let j = choose|j: int| 0 <= j < 10 && moderation_tool_names()[j] == name@;
        }
    }
    false
}

/// The planner's line for one tool.
pub open spec fn tool_line(t: TemplateView) -> Seq<char> {
    "- TOOL `"@ + t.name + "`: "@ + t.system_prompt + "\n"@
}

/// The planner's lines for the tools `s`, in order, leaving out the moderation
/// tools when `hide_moderation`.
pub open spec fn tool_lines(s: Seq<TemplateView>, hide_moderation: bool) -> Seq<char>
    decreases s.len(),
{
    if s.len() == 0 {
        Seq::empty()
    } else {
        tool_lines(s.drop_last(), hide_moderation) + if hide_moderation
            && moderation_tool_names().contains(s.last().name) {
            Seq::empty()
        } else {
            tool_line(s.last())
        }
    }
}

/// Whether a template is not one of the self-moderation tools.
pub open spec fn not_moderation(t: TemplateView) -> bool {
    !moderation_tool_names().contains(t.name)
}

/// The tool list the agent sees while it runs on its own is the full list of
/// the registry with the self-moderation tools taken out, the others kept in
/// order.
pub proof fn law_autonomy_list_hides_moderation(s: Seq<TemplateView>)
    ensures
        tool_lines(s, true) == tool_lines(s.filter(|t: TemplateView| not_moderation(t)), false),
    decreases s.len(),
{
    reveal(Seq::filter);
    let p = |t: TemplateView| not_moderation(t);
    if s.len() > 0 {
        law_autonomy_list_hides_moderation(s.drop_last());
        let f = s.drop_last().filter(p);
        if p(s.last()) {
            assert(f.push(s.last()).drop_last() =~= f);
            assert(f.push(s.last()).last() == s.last());
        }
    }
}

/// Appends the planner's lines for `reg` to `out`.
fn append_tool_lines(out: &mut Vec<char>, reg: &ToolRegistry, hide_moderation: bool)
    ensures
        final(out)@ =~= old(out)@ + tool_lines(reg@, hide_moderation),
{
    let mut i: usize = 0;
    while i < reg.len()
        invariant
            i <= reg@.len(),
            out@ =~= old(out)@ + tool_lines(reg@.subrange(0, i as int), hide_moderation),
        decreases reg@.len() - i,
    {
        let t = reg.entry(i);
        let name = chars_of(t.name.as_str());
        let ghost prev = reg@.subrange(0, i as int);
        assert(reg@.subrange(0, i + 1).drop_last() =~= prev);
        if !(hide_moderation && is_moderation_tool(name.as_slice())) {
            append_str(out, "- TOOL `");
            append_str(out, t.name.as_str());
            append_str(out, "`: ");
            append_str(out, t.system_prompt.as_str());
            append_str(out, "\n");
        }
        i = i + 1;
    }
    assert(reg@.subrange(0, reg@.len() as int) =~= reg@);
}

/// The part of a platform string before its first `:`.
pub open spec fn platform_prefix(platform: Seq<char>) -> Seq<char> {
    match crate::text::find(platform, seq![':']) {
        Some(i) => platform.subrange(0, i),
        None => platform,
    }
}

/// The planner's tool list: every registered tool (moderation tools hidden
/// during autonomy), then, for Discord platforms, the Discord-only tools.
pub open spec fn spec_tools_text_for_platform(
    registry: Seq<TemplateView>,
    discord: Seq<TemplateView>,
    platform: Seq<char>,
    is_autonomy: bool,
) -> Seq<char> {
    tool_lines(registry, is_autonomy) + if platform_prefix(platform) == "discord"@ {
        "\n## Platform-Specific Tools (Discord)\n"@ + tool_lines(discord, false)
    } else {
        Seq::empty()
    }
}

// ───────────────────────── default registries ─────────────────────────

/// The templates of `names` and `prompts`, with no sub-tools.
pub open spec fn catalogue_templates(names: Seq<Seq<char>>, prompts: Seq<Seq<char>>) -> Seq<
    TemplateView,
> {
    Seq::new(
        names.len(),
        |k: int| TemplateView { name: names[k], system_prompt: prompts[k], tools: seq![] },
    )
}

/// The names of the registered tools, in registry order.
pub open spec fn tool_names(s: Seq<TemplateView>) -> Seq<Seq<char>> {
    s.map_values(|t: TemplateView| t.name)
}

/// The planner's tool names have no repeats, and a name is among them exactly
/// when a template is registered under it.
pub proof fn law_tool_names_match_lookups(s: Seq<TemplateView>)
    requires
        names_unique(s),
    ensures
        tool_names(s).no_duplicates(),
        forall|n: Seq<char>| tool_names(s).contains(n) <==> lookup(s, n) is Some,
{
    assert forall|n: Seq<char>| tool_names(s).contains(n) <==> lookup(s, n) is Some by {
        lemma_position(s, n);
        if tool_names(s).contains(n) {
            let i = choose|i: int| 0 <= i < tool_names(s).len() && tool_names(s)[i] == n;
            assert(s[i].name == n);
        }
        if let Some(k) = position_of(s, n) {
            assert(tool_names(s)[k] == n);
        }
    }
    assert forall|i: int, j: int|
        0 <= i < tool_names(s).len() && 0 <= j < tool_names(s).len() && i != j implies
        tool_names(s)[i] != tool_names(s)[j] by {
        if i < j {
            assert(s[i].name != s[j].name);
        } else {
            assert(s[j].name != s[i].name);
        }
    }
}

/// Registering templates with distinct names into an empty registry gives
/// them back in order.
proof fn lemma_register_distinct(ts: Seq<TemplateView>)
    requires
        names_unique(ts),
    ensures
        register_all(Seq::empty(), ts) == ts,
    decreases ts.len(),
{
    if ts.len() > 0 {
        let p = ts.drop_last();
        assert(names_unique(p));
        lemma_register_distinct(p);
        lemma_position(p, ts.last().name);
        assert(forall|j: int| 0 <= j < p.len() ==> p[j].name != ts.last().name);
        assert(p.push(ts.last()) =~= ts);
    }
}

/// The default universal registry.
pub open spec fn default_universal() -> Seq<TemplateView> {
    register_all(Seq::empty(), catalogue_templates(universal_tool_names(), universal_tool_prompts()))
}

/// The default Discord-only registry.
pub open spec fn default_discord() -> Seq<TemplateView> {
    register_all(Seq::empty(), catalogue_templates(discord_tool_names(), discord_tool_prompts()))
}

/// The default registries hold the catalogue's templates in catalogue order:
/// 46 universal tools and 2 Discord-only ones, each registered under its own
/// name with non-empty instructions and no sub-tools, and no name in both
/// registries.
pub proof fn law_default_registries()
    ensures
        default_universal() == catalogue_templates(universal_tool_names(), universal_tool_prompts()),
        default_discord() == catalogue_templates(discord_tool_names(), discord_tool_prompts()),
        default_universal().len() == 46,
        default_discord().len() == 2,
        forall|k: int|
            0 <= k < default_universal().len() ==> (#[trigger] default_universal()[k]).tools.len() == 0
                && default_universal()[k].system_prompt.len() > 0
                && lookup(default_universal(), default_universal()[k].name) == Some(default_universal()[k]),
        forall|k: int|
            0 <= k < default_discord().len() ==> (#[trigger] default_discord()[k]).tools.len() == 0
                && default_discord()[k].system_prompt.len() > 0
                && lookup(default_discord(), default_discord()[k].name) == Some(default_discord()[k]),
        forall|n: Seq<char>| !(lookup(default_universal(), n) is Some && lookup(default_discord(), n) is Some),
{
    lemma_catalogue_names_distinct();
    lemma_catalogue_prompts_nonempty();
    let u = catalogue_templates(universal_tool_names(), universal_tool_prompts());
    let d = catalogue_templates(discord_tool_names(), discord_tool_prompts());
    assert(names_unique(u)) by {
        assert forall|i: int, j: int| 0 <= i < j < u.len() implies u[i].name != u[j].name by {
            assert(u[i].name == universal_tool_names()[i]);
            assert(u[j].name == universal_tool_names()[j]);
        }
    }
    assert(names_unique(d)) by {
        assert forall|i: int, j: int| 0 <= i < j < d.len() implies d[i].name != d[j].name by {
            assert(i == 0 && j == 1);
        }
    }
    lemma_register_distinct(u);
    lemma_register_distinct(d);
    assert forall|k: int| 0 <= k < u.len() implies lookup(u, u[k].name) == Some(u[k]) by {
        lemma_position_unique(u, u[k].name, k);
    }
    assert forall|k: int| 0 <= k < d.len() implies lookup(d, d[k].name) == Some(d[k]) by {
        lemma_position_unique(d, d[k].name, k);
    }
    assert forall|n: Seq<char>| !(lookup(u, n) is Some && lookup(d, n) is Some) by {
        lemma_position(u, n);
        lemma_position(d, n);
        if let Some(a) = position_of(u, n) {
            if let Some(b) = position_of(d, n) {
                assert(u[a].name == universal_tool_names()[a]);
                assert(d[b].name == discord_tool_names()[b]);
            }
        }
    }
}

/// The tool list for a platform is the general tool list (moderation tools
/// hidden during autonomy) and, when the platform's prefix before `:` is
/// `discord`, a heading and one line for each Discord-only tool, none of them
/// hidden; for any other platform it is the general list alone.  A new
/// manager's Discord-only lines are those of `channel_reader` and
/// `emoji_react`, in that order.
pub proof fn law_platform_tool_list(
    registry: Seq<TemplateView>,
    discord: Seq<TemplateView>,
    platform: Seq<char>,
    is_autonomy: bool,
)
    ensures
        platform_prefix(platform) == "discord"@ ==> spec_tools_text_for_platform(
            registry,
            discord,
            platform,
            is_autonomy,
        ) == tool_lines(registry, is_autonomy) + "\n## Platform-Specific Tools (Discord)\n"@ + tool_lines(
            discord,
            false,
        ),
        platform_prefix(platform) != "discord"@ ==> spec_tools_text_for_platform(
            registry,
            discord,
            platform,
            is_autonomy,
        ) == tool_lines(registry, is_autonomy),
        (forall|k: int| 0 <= k < discord.len() ==> !moderation_tool_names().contains(#[trigger] discord[k].name))
            ==> tool_lines(discord, false) == tool_lines(discord, true),
        tool_lines(default_discord(), false) == tool_line(default_discord()[0]) + tool_line(
            default_discord()[1],
        ),
        default_discord()[0].name == "channel_reader"@,
        default_discord()[1].name == "emoji_react"@,
{
    law_default_registries();
    let d = default_discord();
    let d1 = d.drop_last();
    assert(d1.len() == 1);
    assert(d1.drop_last().len() == 0);
    assert(tool_lines(d1.drop_last(), false) == Seq::<char>::empty());
    assert(d1.last() == d[0]);
    assert(tool_lines(d1, false) =~= Seq::<char>::empty() + tool_line(d[0]));
    assert(tool_lines(d1, false) =~= tool_line(d[0]));
    assert(d.last() == d[1]);
    lemma_lines_without_moderation(discord);
}

/// Hiding the moderation tools changes nothing for a list that has none.
proof fn lemma_lines_without_moderation(s: Seq<TemplateView>)
    ensures
        (forall|k: int| 0 <= k < s.len() ==> !moderation_tool_names().contains(#[trigger] s[k].name))
            ==> tool_lines(s, false) == tool_lines(s, true),
    decreases s.len(),
{
    if s.len() > 0 {
        lemma_lines_without_moderation(s.drop_last());
        if forall|k: int| 0 <= k < s.len() ==> !moderation_tool_names().contains(#[trigger] s[k].name) {
            assert forall|k: int| 0 <= k < s.drop_last().len() implies !moderation_tool_names().contains(
                #[trigger] s.drop_last()[k].name,
            ) by {
                assert(s.drop_last()[k] == s[k]);
            }
            assert(!moderation_tool_names().contains(s[s.len() - 1].name));
        }
    }
}

/// The default universal and Discord-only registries: every catalogue tool
/// registered in catalogue order.
pub fn build_default_registries() -> (r: (ToolRegistry, ToolRegistry))
    ensures
        r.0@ == register_all(
            Seq::empty(),
            catalogue_templates(universal_tool_names(), universal_tool_prompts()),
        ),
        r.1@ == register_all(
            Seq::empty(),
            catalogue_templates(discord_tool_names(), discord_tool_prompts()),
        ),
{
    let mut registry = ToolRegistry::new();
    let ghost all = catalogue_templates(universal_tool_names(), universal_tool_prompts());
    let mut k: usize = 0;
    while k < 46
        invariant
            k <= 46,
            all == catalogue_templates(universal_tool_names(), universal_tool_prompts()),
            all.len() == 46,
            registry@ == register_all(Seq::empty(), all.subrange(0, k as int)),
        decreases 46 - k,
    {
        let (name, prompt) = universal_tool(k);
        let t = ToolTemplate::plain(owned(name), owned(prompt));
        assert(all.subrange(0, k + 1).drop_last() =~= all.subrange(0, k as int));
        assert(t@ == all[k as int]);
        registry.register(t);
        k = k + 1;
    }
    assert(all.subrange(0, 46) =~= all);
    let mut discord = ToolRegistry::new();
    let ghost dall = catalogue_templates(discord_tool_names(), discord_tool_prompts());
    let mut k: usize = 0;
    while k < 2
        invariant
            k <= 2,
            dall == catalogue_templates(discord_tool_names(), discord_tool_prompts()),
            dall.len() == 2,
            discord@ == register_all(Seq::empty(), dall.subrange(0, k as int)),
        decreases 2 - k,
    {
        let (name, prompt) = discord_tool(k);
        let t = ToolTemplate::plain(owned(name), owned(prompt));
        assert(dall.subrange(0, k + 1).drop_last() =~= dall.subrange(0, k as int));
        assert(t@ == dall[k as int]);
        discord.register(t);
        k = k + 1;
    }
    assert(dall.subrange(0, 2) =~= dall);
    (registry, discord)
}

// ───────────────────────── agent manager ─────────────────────────

/// A tool as recorded in the forge's registry file: only enabled tools with a
/// name are loaded.
pub struct ForgedToolEntry {
    pub enabled: bool,
    pub name: String,
    pub description: String,
}

/// The template under which a forged tool is offered to the planner.
pub open spec fn forged_template(e: ForgedToolEntry) -> TemplateView {
    TemplateView { name: e.name@, system_prompt: "[FORGED TOOL] "@ + e.description@, tools: seq![] }
}

/// The registry after loading the forged tools `es` in order.
pub open spec fn load_forged(s: Seq<TemplateView>, es: Seq<ForgedToolEntry>) -> Seq<TemplateView>
    decreases es.len(),
{
    if es.len() == 0 {
        s
    } else {
        let prev = load_forged(s, es.drop_last());
        let e = es.last();
        if e.enabled && e.name@.len() > 0 {
            spec_register(prev, forged_template(e))
        } else {
            prev
        }
    }
}

/// The registries the planner's tools come from, and which of the optional
/// subsystems (outreach with its drives and inbox, the goal store, the tool
/// forge, the OpenCode bridge) were wired in after construction.
pub struct AgentManager {
    registry: ToolRegistry,
    discord_tools: ToolRegistry,
    outreach: bool,
    goals: bool,
    forge: bool,
    opencode: bool,
}

impl AgentManager {
    /// The universal registry.
    pub closed spec fn registry_view(&self) -> Seq<TemplateView> {
        self.registry@
    }

    /// The Discord-only registry.
    pub closed spec fn discord_view(&self) -> Seq<TemplateView> {
        self.discord_tools@
    }

    /// Whether the outreach subsystem was wired in.
    pub closed spec fn outreach_wired(&self) -> bool {
        self.outreach
    }

    /// Whether the goal store was wired in.
    pub closed spec fn goals_wired(&self) -> bool {
        self.goals
    }

    /// Whether the tool forge was wired in.
    pub closed spec fn forge_wired(&self) -> bool {
        self.forge
    }

    /// Whether the OpenCode bridge was wired in.
    pub closed spec fn opencode_wired(&self) -> bool {
        self.opencode
    }

    /// Whether the outreach subsystem was wired in.
    pub fn has_outreach(&self) -> (r: bool)
        ensures
            r == self.outreach_wired(),
    {
        self.outreach
    }

    /// A manager with the default registries.
    pub fn new() -> (r: AgentManager)
        ensures
            r.registry_view() == register_all(
                Seq::empty(),
                catalogue_templates(universal_tool_names(), universal_tool_prompts()),
            ),
            r.discord_view() == register_all(
                Seq::empty(),
                catalogue_templates(discord_tool_names(), discord_tool_prompts()),
            ),
            !r.outreach_wired(),
            !r.goals_wired(),
            !r.forge_wired(),
            !r.opencode_wired(),
    {
        let (registry, discord_tools) = build_default_registries();
        AgentManager {
            registry,
            discord_tools,
            outreach: false,
            goals: false,
            forge: false,
            opencode: false,
        }
    }

    /// Wire in the outreach subsystem (drives, outreach gate and inbox).
    pub fn with_outreach(self) -> (r: AgentManager)
        ensures
            r.outreach_wired(),
            r.goals_wired() == self.goals_wired(),
            r.forge_wired() == self.forge_wired(),
            r.opencode_wired() == self.opencode_wired(),
            r.registry_view() == self.registry_view(),
            r.discord_view() == self.discord_view(),
    {
        AgentManager { outreach: true, ..self }
    }

    /// Wire in the goal store.
    pub fn with_goals(self) -> (r: AgentManager)
        ensures
            r.goals_wired(),
            r.outreach_wired() == self.outreach_wired(),
            r.forge_wired() == self.forge_wired(),
            r.opencode_wired() == self.opencode_wired(),
            r.registry_view() == self.registry_view(),
            r.discord_view() == self.discord_view(),
    {
        AgentManager { goals: true, ..self }
    }

    /// Wire in the tool forge.
    pub fn with_forge(self) -> (r: AgentManager)
        ensures
            r.forge_wired(),
            r.outreach_wired() == self.outreach_wired(),
            r.goals_wired() == self.goals_wired(),
            r.opencode_wired() == self.opencode_wired(),
            r.registry_view() == self.registry_view(),
            r.discord_view() == self.discord_view(),
    {
        AgentManager { forge: true, ..self }
    }

    /// Wire in the OpenCode bridge.
    pub fn with_opencode(self) -> (r: AgentManager)
        ensures
            r.opencode_wired(),
            r.outreach_wired() == self.outreach_wired(),
            r.goals_wired() == self.goals_wired(),
            r.forge_wired() == self.forge_wired(),
            r.registry_view() == self.registry_view(),
            r.discord_view() == self.discord_view(),
    {
        AgentManager { opencode: true, ..self }
    }

    /// The services a task dispatched by this manager can reach; the swarm
    /// handle and the capability matrix are handed in by the caller.
    pub fn services(&self, swarm_agent: bool, swarm_caps: bool) -> (r: Services)
        ensures
            r == (Services {
                agent_manager: swarm_agent,
                capabilities: swarm_caps,
                goal_store: self.goals_wired(),
                tool_forge: self.forge_wired(),
                opencode_bridge: self.opencode_wired(),
            }),
    {
        Services {
            agent_manager: swarm_agent,
            capabilities: swarm_caps,
            goal_store: self.goals,
            tool_forge: self.forge,
            opencode_bridge: self.opencode,
        }
    }

    /// Hot-load the enabled, named forged tools into the registry, each offered
    /// as `[FORGED TOOL] <description>`.
    pub fn load_forged_tools(&mut self, entries: &[ForgedToolEntry])
        ensures
            final(self).registry_view() == load_forged(old(self).registry_view(), entries@),
            final(self).discord_view() == old(self).discord_view(),
    {
        let mut i: usize = 0;
        while i < entries.len()
            invariant
                i <= entries@.len(),
                self.registry_view() == load_forged(
                    old(self).registry_view(),
                    entries@.subrange(0, i as int),
                ),
                self.discord_view() == old(self).discord_view(),
            decreases entries.len() - i,
        {
            let e = &entries[i];
            assert(entries@.subrange(0, i + 1).drop_last() =~= entries@.subrange(0, i as int));
            if e.enabled && e.name.as_str().unicode_len() > 0 {
                let mut prompt: Vec<char> = Vec::new();
                append_str(&mut prompt, "[FORGED TOOL] ");
                append_str(&mut prompt, e.description.as_str());
                let t = ToolTemplate::plain(e.name.clone(), string_of(prompt.as_slice()));
                self.registry.register(t);
            }
            i = i + 1;
        }
        assert(entries@.subrange(0, entries@.len() as int) =~= entries@);
    }

    /// Register `template`, replacing any tool of the same name.
    pub fn register_tool(&mut self, template: ToolTemplate)
        ensures
            final(self).registry_view() == spec_register(old(self).registry_view(), template@),
            final(self).discord_view() == old(self).discord_view(),
            names_unique(old(self).registry_view()),
            names_unique(final(self).registry_view()),
    {
        self.registry.register(template);
    }

    /// All registered tool names, in registry order.
    pub fn get_tool_names(&self) -> (r: Vec<String>)
        ensures
            r@.len() == self.registry_view().len(),
            forall|i: int|
                0 <= i < r@.len() ==> #[trigger] r@[i]@ == self.registry_view()[i].name,
    {
        self.registry.names()
    }

    /// A copy of the template registered under `name`.
    pub fn get_template(&self, name: &str) -> (r: Option<ToolTemplate>)
        ensures
            match lookup(self.registry_view(), name@) {
                Some(t) => r matches Some(x) && x@ == t,
                None => r is None,
            },
            names_unique(self.registry_view()),
    {
        self.registry.get(name)
    }

    /// Every registered tool as a `- TOOL \`name\`: instructions` line, in
    /// registry order; the moderation tools are left out when `is_autonomy`.
    pub fn get_available_tools_text(&self, is_autonomy: bool) -> (r: String)
        ensures
            r@ == tool_lines(self.registry_view(), is_autonomy),
    {
        let mut out: Vec<char> = Vec::new();
        append_tool_lines(&mut out, &self.registry, is_autonomy);
        string_of(out.as_slice())
    }

    /// The tool list for `platform`: the universal list, followed, when the
    /// platform's prefix before `:` is `discord`, by a heading and the
    /// Discord-only tools.
    pub fn get_available_tools_text_for_platform(&self, platform: &str, is_autonomy: bool) -> (r:
        String)
        ensures
            r@ == spec_tools_text_for_platform(
                self.registry_view(),
                self.discord_view(),
                platform@,
                is_autonomy,
            ),
    {
        let mut out: Vec<char> = Vec::new();
        append_tool_lines(&mut out, &self.registry, is_autonomy);
        let p = chars_of(platform);
        let prefix = match crate::text::find_char(p.as_slice(), ':') {
            Some(i) => crate::text::slice_copy(p.as_slice(), 0, i),
            None => {
                let whole = crate::text::slice_copy(p.as_slice(), 0, p.len());
                assert(whole@ =~= platform@);
                whole
            },
        };
        assert(prefix@ == platform_prefix(platform@));
        proof {
            reveal_strlit("discord");
        }
        let discord = chars_of("discord");
        if eq_chars(prefix.as_slice(), discord.as_slice()) {
            append_str(&mut out, "\n## Platform-Specific Tools (Discord)\n");
            append_tool_lines(&mut out, &self.discord_tools, false);
        }
        string_of(out.as_slice())
    }
}

// ───────────────────────── template executor ─────────────────────────

/// Runs an LLM-backed tool template.  The provider call itself is made by the
/// caller; this holds the template and builds the prompt it is given.
pub struct ToolExecutor {
    pub template: ToolTemplate,
}

/// The system prompt a template runs with.
pub open spec fn spec_executor_prompt(
    template_prompt: Seq<char>,
    context: Seq<char>,
    task: Seq<char>,
) -> Seq<char> {
    template_prompt + "\n\n[CONTEXT PROVIDED BY QUEEN]\n"@ + context + "\n\n[YOUR TASK]\n"@ + task
}

impl ToolExecutor {
    pub fn new(template: ToolTemplate) -> (r: ToolExecutor)
        ensures
            r.template@ == template@,
    {
        ToolExecutor { template }
    }

    /// The system prompt for running the template on `task_description` with
    /// the planner's `context`.
    pub fn system_prompt(&self, task_description: &str, context: &str) -> (r: String)
        ensures
            r@ == spec_executor_prompt(self.template.system_prompt@, context@, task_description@),
    {
        let mut out: Vec<char> = Vec::new();
        append_str(&mut out, self.template.system_prompt.as_str());
        append_str(&mut out, "\n\n[CONTEXT PROVIDED BY QUEEN]\n");
        append_str(&mut out, context);
        append_str(&mut out, "\n\n[YOUR TASK]\n");
        append_str(&mut out, task_description);
        string_of(out.as_slice())
    }
}

} // verus!
