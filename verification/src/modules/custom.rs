//! A user-defined module: what it shows for the latest output of its
//! `listen_cmd`, which command each interaction runs, and how the lines of
//! that output are gathered into JSON records.

use crate::config::custom_module::{CustomModuleDef, CustomModuleType, IconRules};
use crate::pattern::{regex_finds, RegexCfg};
use crate::text::{copy_opt_string, opt_view};
use vstd::prelude::*;

verus! {

/// One record printed by a module's `listen_cmd`.
#[derive(Clone, Debug)]
pub struct CustomListenData {
    pub alt: String,
    pub text: Option<String>,
}

impl CustomListenData {
    /// The record a module starts with: empty `alt`, no text.
    pub fn empty() -> (d: Self)
        ensures
            d.alt@ == Seq::<char>::empty(),
            d.text is None,
    {
        CustomListenData { alt: String::new(), text: None }
    }
}

impl Default for CustomListenData {
    fn default() -> (d: Self)
        ensures
            d.alt@ == Seq::<char>::empty(),
            d.text is None,
    {
        CustomListenData::empty()
    }
}

/// What happens to a custom module.
#[derive(Clone, Debug)]
pub enum Message {
    LaunchCommand,
    LaunchRightClickCommand,
    LaunchMiddleClickCommand,
    LaunchScrollUpCommand,
    LaunchScrollDownCommand,
    Update(CustomListenData),
}

/// The command an interaction runs, if the module configures one.
pub open spec fn command_spec(config: CustomModuleDef, msg: Message) -> Option<Seq<char>> {
    match msg {
        Message::LaunchCommand => opt_view(config.command),
        Message::LaunchRightClickCommand => opt_view(config.on_right_click),
        Message::LaunchMiddleClickCommand => opt_view(config.on_middle_click),
        Message::LaunchScrollUpCommand => opt_view(config.on_scroll_up),
        Message::LaunchScrollDownCommand => opt_view(config.on_scroll_down),
        Message::Update(_) => None,
    }
}

/// The first icon rule at or after `from` whose regex matches `alt`.
pub open spec fn first_icon_rule(rules: Seq<(RegexCfg, String)>, alt: Seq<char>, from: int) -> Option<
    int,
>
    decreases rules.len() - from,
{
    if from < 0 || from >= rules.len() {
        None
    } else if regex_finds(rules[from].0.source(), alt) {
        Some(from)
    } else {
        first_icon_rule(rules, alt, from + 1)
    }
}

/// The icon a button shows for `alt`: that of the first matching rule, else
/// the configured icon.
pub open spec fn icon_spec(config: CustomModuleDef, alt: Seq<char>) -> Option<Seq<char>> {
    match config.icons {
        Some(rules) => match first_icon_rule(rules.entries(), alt, 0) {
            Some(i) => Some(rules.entries()[i].1@),
            None => opt_view(config.icon),
        },
        None => opt_view(config.icon),
    }
}

/// Whether the alert regex matches `alt`.
pub open spec fn alert_spec(config: CustomModuleDef, alt: Seq<char>) -> bool {
    match config.alert {
        Some(re) => regex_finds(re.source(), alt),
        None => false,
    }
}

/// The text shown: the reported text when it is not empty.
pub open spec fn shown_text_spec(data: CustomListenData) -> Option<Seq<char>> {
    match data.text {
        Some(t) => if t@.len() > 0 { Some(t@) } else { None },
        None => None,
    }
}

/// What a custom module draws.
#[derive(Clone, Debug)]
pub enum CustomLayout {
    /// A text module's text.
    Label(String),
    /// A text module with nothing to say: an empty, shrinking space.
    Blank,
    /// Icon and text side by side; the alert dot rides the icon.
    IconAndText { icon: String, text: String, alert: bool },
    /// The icon alone, with the alert dot if `alert`.
    Icon { icon: String, alert: bool },
    /// The text alone, carrying the alert dot if `alert`.
    Text { text: String, alert: bool },
    /// Neither icon nor text: an empty icon, so the button still has a
    /// place to click.
    EmptyIcon,
}

/// `layout` is what a module of type `module_type` draws with `icon`, `text`
/// and the alert state `alert`.
pub open spec fn composed_spec(
    layout: CustomLayout,
    module_type: CustomModuleType,
    icon: Option<Seq<char>>,
    text: Option<Seq<char>>,
    alert: bool,
) -> bool {
    match module_type {
        CustomModuleType::Text => match text {
            Some(t) => layout matches CustomLayout::Label(s) && s@ == t,
            None => layout is Blank,
        },
        CustomModuleType::Button => match (icon, text) {
            (Some(i), Some(t)) => layout matches CustomLayout::IconAndText { icon: li, text: lt, alert: la }
                && li@ == i && lt@ == t && la == alert,
            (Some(i), None) => layout matches CustomLayout::Icon { icon: li, alert: la } && li@ == i
                && la == alert,
            (None, Some(t)) => layout matches CustomLayout::Text { text: lt, alert: la } && lt@ == t
                && la == alert,
            (None, None) => layout is EmptyIcon,
        },
    }
}

/// `layout` is what a module configured by `config` draws for `data`.
pub open spec fn layout_spec(layout: CustomLayout, config: CustomModuleDef, data: CustomListenData) -> bool {
    composed_spec(
        layout,
        config.module_type,
        icon_spec(config, data.alt@),
        shown_text_spec(data),
        alert_spec(config, data.alt@),
    )
}

impl CustomLayout {
    /// What a module of type `module_type` draws with this icon, text and
    /// alert state: a text module shows its text or nothing, a button its
    /// icon and text side by side, either one alone, or an empty icon.
    pub fn compose(
        module_type: CustomModuleType,
        icon: Option<String>,
        text: Option<String>,
        alert: bool,
    ) -> (l: CustomLayout)
        ensures
            composed_spec(l, module_type, opt_view(icon), opt_view(text), alert),
    {
        match module_type {
            CustomModuleType::Text => match text {
                Some(t) => CustomLayout::Label(t),
                None => CustomLayout::Blank,
            },
            CustomModuleType::Button => match (icon, text) {
                (Some(icon), Some(text)) => CustomLayout::IconAndText { icon, text, alert },
                (Some(icon), None) => CustomLayout::Icon { icon, alert },
                (None, Some(text)) => CustomLayout::Text { text, alert },
                (None, None) => CustomLayout::EmptyIcon,
            },
        }
    }
}

/// The position of the first icon rule whose regex matches `alt`.
pub fn first_matching_icon(rules: &IconRules, alt: &str) -> (res: Option<usize>)
    ensures
        match res {
            Some(i) => first_icon_rule(rules.entries(), alt@, 0) == Some(i as int) && i
                < rules.entries().len(),
            None => first_icon_rule(rules.entries(), alt@, 0) is None,
        },
{
    let n = rules.len();
    for i in 0..n
        invariant
            n == rules.entries().len(),
            first_icon_rule(rules.entries(), alt@, 0) == first_icon_rule(
                rules.entries(),
                alt@,
                i as int,
            ),
    {
        if rules.get(i).0.is_match(alt) {
            return Some(i);
        }
    }
    None
}

/// A module made from its configuration entry, together with what its
/// `listen_cmd` reported last.
#[derive(Clone, Debug)]
pub struct Custom {
    pub config: CustomModuleDef,
    pub data: CustomListenData,
}

impl Custom {
    /// A module that has not heard from its `listen_cmd` yet.
    pub fn new(config: CustomModuleDef) -> (c: Self)
        ensures
            c.config == config,
            c.data.alt@ == Seq::<char>::empty(),
            c.data.text is None,
    {
        Custom { config, data: CustomListenData::empty() }
    }

    /// Takes a reloaded configuration entry, keeping what `listen_cmd`
    /// reported last (a one-shot `listen_cmd` would never report again).
    pub fn reload(&mut self, config: CustomModuleDef)
        ensures
            final(self).config == config,
            final(self).data == old(self).data,
    {
        self.config = config;
    }

    /// Whether the module is a button or a text label.
    pub fn module_type(&self) -> (t: CustomModuleType)
        ensures
            t == self.config.module_type,
    {
        self.config.module_type
    }

    /// Handles `msg`: a new record replaces the last one; an interaction
    /// returns the command it runs, when one is configured.
    pub fn update(&mut self, msg: Message) -> (cmd: Option<String>)
        ensures
            opt_view(cmd) == command_spec(old(self).config, msg),
            final(self).config == old(self).config,
            match msg {
                Message::Update(d) => final(self).data == d,
                _ => final(self).data == old(self).data,
            },
    {
        match msg {
            Message::LaunchCommand => copy_opt_string(&self.config.command),
            Message::LaunchRightClickCommand => copy_opt_string(&self.config.on_right_click),
            Message::LaunchMiddleClickCommand => copy_opt_string(&self.config.on_middle_click),
            Message::LaunchScrollUpCommand => copy_opt_string(&self.config.on_scroll_up),
            Message::LaunchScrollDownCommand => copy_opt_string(&self.config.on_scroll_down),
            Message::Update(data) => {
                self.data = data;
                None
            },
        }
    }

    /// The icon the module shows now.
    pub fn current_icon(&self) -> (icon: Option<String>)
        ensures
            opt_view(icon) == icon_spec(self.config, self.data.alt@),
    {
        match &self.config.icons {
            Some(rules) => match first_matching_icon(rules, self.data.alt.as_str()) {
                Some(i) => Some(rules.get(i).1.clone()),
                None => copy_opt_string(&self.config.icon),
            },
            None => copy_opt_string(&self.config.icon),
        }
    }

    /// Whether the alert dot shows now.
    pub fn shows_alert(&self) -> (b: bool)
        ensures
            b == alert_spec(self.config, self.data.alt@),
    {
        match &self.config.alert {
            Some(re) => re.is_match(self.data.alt.as_str()),
            None => false,
        }
    }

    /// The text the module shows now.
    pub fn shown_text(&self) -> (t: Option<String>)
        ensures
            opt_view(t) == shown_text_spec(self.data),
    {
        match &self.data.text {
            Some(t) => if t.unicode_len() > 0 {
                Some(t.clone())
            } else {
                None
            },
            None => None,
        }
    }

    /// What the module draws now.
    pub fn layout(&self) -> (l: CustomLayout)
        ensures
            layout_spec(l, self.config, self.data),
    {
        let text = self.shown_text();
        match self.config.module_type {
            CustomModuleType::Text => CustomLayout::compose(CustomModuleType::Text, None, text, false),
            CustomModuleType::Button => {
                let icon = self.current_icon();
                let alert = self.shows_alert();
                CustomLayout::compose(CustomModuleType::Button, icon, text, alert)
            },
        }
    }
}

/// How an attempt to read the gathered lines as one JSON record went.
#[derive(Clone, Copy, Debug, PartialEq, Eq, Structural)]
pub enum ParseOutcome {
    /// A whole record was read.
    Parsed,
    /// The lines so far end in the middle of a record.
    Incomplete,
    /// The lines are not JSON.
    Invalid,
}

/// How many bytes of an unfinished record are kept before they are dropped.
pub const MAX_PENDING_BYTES: usize = 1048576;

/// The length in bytes of the UTF-8 encoding of `s`, as `str::len` reports
/// it.
pub open spec fn utf8_len(s: Seq<char>) -> usize {
    vstd::utf8::encode_utf8(s).len() as usize
}

/// Lines of a `listen_cmd`'s output, gathered until they form one JSON
/// record.
#[derive(Debug)]
pub struct ListenBuffer {
    buf: String,
}

impl ListenBuffer {
    /// The lines gathered so far, each followed by a newline.
    pub closed spec fn contents(&self) -> Seq<char> {
        self.buf@
    }

    /// An empty buffer.
    pub fn new() -> (b: Self)
        ensures
            b.contents() == Seq::<char>::empty(),
    {
        ListenBuffer { buf: String::new() }
    }

    /// Appends one output line and its newline.
    pub fn push_line(&mut self, line: &str)
        ensures
            final(self).contents() == old(self).contents() + line@ + seq!['\n'],
    {
        self.buf.append(line);
        let nl = "\n";
        proof {
            reveal_strlit("\n");
        }
        self.buf.append(nl);
    }

    /// The gathered text, to be read as JSON.
    pub fn as_str(&self) -> (s: &str)
        ensures
            s@ == self.contents(),
    {
        self.buf.as_str()
    }

    /// Acts on how reading the gathered text went: a record read or text
    /// that is not JSON empties the buffer; an unfinished record is kept
    /// unless it has grown beyond `MAX_PENDING_BYTES` bytes, in which case it
    /// is dropped. Returns whether the buffer was emptied.
    pub fn settle(&mut self, outcome: ParseOutcome) -> (cleared: bool)
        ensures
            cleared == (outcome != ParseOutcome::Incomplete || utf8_len(old(self).contents())
                > MAX_PENDING_BYTES),
            cleared ==> final(self).contents() == Seq::<char>::empty(),
            !cleared ==> final(self).contents() == old(self).contents(),
    {
        let drop = match outcome {
            ParseOutcome::Parsed => true,
            ParseOutcome::Invalid => true,
            ParseOutcome::Incomplete => self.buf.as_str().len() > MAX_PENDING_BYTES,
        };
        if drop {
            self.buf = String::new();
        }
        drop
    }
}

/// The alert state a layout carries, if it carries one.
pub open spec fn layout_alert(l: CustomLayout) -> Option<bool> {
    match l {
        CustomLayout::IconAndText { alert, .. } => Some(alert),
        CustomLayout::Icon { alert, .. } => Some(alert),
        CustomLayout::Text { alert, .. } => Some(alert),
        _ => None,
    }
}

/// The icon a layout draws, if any.
pub open spec fn layout_icon(l: CustomLayout) -> Option<Seq<char>> {
    match l {
        CustomLayout::IconAndText { icon, .. } => Some(icon@),
        CustomLayout::Icon { icon, .. } => Some(icon@),
        _ => None,
    }
}

/// The text a layout draws, if any.
pub open spec fn layout_text(l: CustomLayout) -> Option<Seq<char>> {
    match l {
        CustomLayout::IconAndText { text, .. } => Some(text@),
        CustomLayout::Text { text, .. } => Some(text@),
        CustomLayout::Label(text) => Some(text@),
        _ => None,
    }
}

/// Law: a button draws exactly the icon and the text it is given, and
/// whenever it draws anything it carries the alert state it is given, in
/// every combination of icon and text; a text module draws its text and no
/// icon or alert.
pub proof fn law_layout_keeps_icon_text_and_alert(
    l: CustomLayout,
    module_type: CustomModuleType,
    icon: Option<Seq<char>>,
    text: Option<Seq<char>>,
    alert: bool,
)
    requires
        composed_spec(l, module_type, icon, text, alert),
    ensures
        layout_text(l) == text,
        module_type == CustomModuleType::Button ==> layout_icon(l) == icon,
        module_type == CustomModuleType::Button ==> (layout_alert(l) == if icon is Some
            || text is Some {
            Some(alert)
        } else {
            None
        }),
        module_type == CustomModuleType::Text ==> layout_icon(l) is None && layout_alert(l) is None,
{
}

/// The first icon rule found from `from`, when there is one, matches `alt`
/// and no rule between `from` and it does; otherwise no rule from `from`
/// on matches.
pub proof fn lemma_first_icon_rule(rules: Seq<(RegexCfg, String)>, alt: Seq<char>, from: int)
    requires
        0 <= from,
    ensures
        match first_icon_rule(rules, alt, from) {
            Some(i) => from <= i < rules.len() && regex_finds(rules[i].0.source(), alt) && forall|k: int|
                from <= k < i ==> !regex_finds(#[trigger] rules[k].0.source(), alt),
            None => forall|k: int|
                from <= k < rules.len() ==> !regex_finds(#[trigger] rules[k].0.source(), alt),
        },
    decreases rules.len() - from,
{
    if from < rules.len() && !regex_finds(rules[from].0.source(), alt) {
        lemma_first_icon_rule(rules, alt, from + 1);
    }
}

/// Law: a button shows the icon of the first rule whose regex matches
/// `alt`, no earlier rule matching; when no rule matches, or there are no
/// rules, it shows the configured icon.
pub proof fn law_icon_comes_from_first_matching_rule(config: CustomModuleDef, alt: Seq<char>)
    ensures
        match config.icons {
            Some(rules) => {
                ||| exists|i: int|
                    0 <= i < rules.entries().len() && regex_finds(rules.entries()[i].0.source(), alt)
                        && (forall|k: int|
                        0 <= k < i ==> !regex_finds(#[trigger] rules.entries()[k].0.source(), alt))
                        && icon_spec(config, alt) == Some(rules.entries()[i].1@)
                ||| (forall|k: int|
                    0 <= k < rules.entries().len() ==> !regex_finds(
                        #[trigger] rules.entries()[k].0.source(),
                        alt,
                    )) && icon_spec(config, alt) == opt_view(config.icon)
            },
            None => icon_spec(config, alt) == opt_view(config.icon),
        },
{
    if let Some(rules) = config.icons {
        lemma_first_icon_rule(rules.entries(), alt, 0);
    }
}

} // verus!
