//! The block: its configuration, its widget, and what it does on each poll
//! and click.
//!
//! The caller runs the shell commands. It hands the block the state command's
//! output (or the reason it could not be had) and, on a click, whether the
//! action command succeeded; the block decides everything else.

use vstd::prelude::*;

use std::time::Duration;

use crate::classify::{classification_of, classify, ClassifyError};
use crate::fields::{display_fields, first_unknown, lemma_checked_template_renders, unknown_field, with_blanks};
use crate::pattern::{capture_names_of, captures_of, regex_compiles, FieldPattern, PatternError};
use crate::template::{parse_template, render_pieces, FormatTemplate, Piece, RenderError, TemplateError};

verus! {

/// The health a widget shows, for colouring.
#[derive(Clone, Copy, Debug, PartialEq, Eq, Structural)]
pub enum WidgetState {
    Idle,
    Critical,
}

/// The text widget that the block owns and the bar draws.
#[derive(Clone, Debug)]
pub struct TextWidget {
    instance: usize,
    icon: Option<String>,
    text: String,
    state: WidgetState,
}

/// What a widget shows.
pub ghost struct WidgetView {
    pub instance: usize,
    pub icon: Option<Seq<char>>,
    pub text: Seq<char>,
    pub state: WidgetState,
}

impl View for TextWidget {
    type V = WidgetView;

    closed spec fn view(&self) -> WidgetView {
        WidgetView {
            instance: self.instance,
            icon: self.icon.deep_view(),
            text: self.text@,
            state: self.state,
        }
    }
}

impl TextWidget {
    /// A widget with no icon, showing `text`.
    pub fn new(instance: usize, text: String) -> (r: TextWidget)
        ensures
            r@ == (WidgetView { instance, icon: None, text: text@, state: WidgetState::Idle }),
    {
        TextWidget { instance, icon: None, text, state: WidgetState::Idle }
    }

    pub fn instance(&self) -> (r: usize)
        ensures
            r == self@.instance,
    {
        self.instance
    }

    pub fn icon(&self) -> (r: Option<&String>)
        ensures
            r.deep_view() == self@.icon,
    {
        self.icon.as_ref()
    }

    pub fn text(&self) -> (r: &String)
        ensures
            r@ == self@.text,
    {
        &self.text
    }

    pub fn state(&self) -> (r: WidgetState)
        ensures
            r == self@.state,
    {
        self.state
    }
}

/// Why a shell command could not be run to the end.
#[derive(Clone, Debug, PartialEq, Eq)]
pub enum RunError {
    /// The shell could not be started.
    Spawn(String),
    /// Its output could not be read.
    Io(String),
}

/// A fault on a poll or a click, reported to the bar.
#[derive(Clone, Debug, PartialEq, Eq)]
pub enum BlockError {
    /// The state command could not be run.
    State(RunError),
    /// The state command's output matched neither expression.
    Classify(ClassifyError),
    /// The chosen template names a field that the matching expression lacks.
    /// `new` refuses such templates, so a built block never returns it.
    Render(RenderError),
}

impl BlockError {
    /// A short tag for the kind of fault.
    pub fn tag(&self) -> (r: &'static str)
        ensures
            r@ == match self {
                BlockError::State(_) => "state"@,
                BlockError::Classify(_) => "classify"@,
                BlockError::Render(_) => "render"@,
            },
    {
        match self {
            BlockError::State(_) => "state",
            BlockError::Classify(_) => "classify",
            BlockError::Render(_) => "render",
        }
    }
}

/// Why a block could not be built from its configuration.
#[derive(Clone, Debug, PartialEq, Eq)]
pub enum ConfigError {
    RegexOn(PatternError),
    RegexOff(PatternError),
    FormatOn(TemplateError),
    FormatOff(TemplateError),
    /// The ON template names this field, which is neither one of `tags`,
    /// `hours` and `minutes` nor a named group of the ON expression.
    UnknownFieldOn(String),
    /// The same for the OFF template and expression.
    UnknownFieldOff(String),
}

/// The options of a block. Every one has a default (see `Default`).
#[derive(Clone, Debug)]
pub struct TimeWarriorConfig {
    /// How often the block asks to be polled; `None`: only on events.
    pub interval: Option<Duration>,
    /// The shell command whose output tells the tracker's state.
    pub command_state: String,
    /// The shell command that starts tracking.
    pub command_on: String,
    /// The shell command that stops tracking.
    pub command_off: String,
    /// Matches the state output while tracking; its named groups are fields.
    pub regex_on: String,
    /// Matches the state output while not tracking.
    pub regex_off: String,
    /// The text shown while tracking.
    pub format_on: String,
    /// The text shown while not tracking.
    pub format_off: String,
    /// The icon shown while tracking.
    pub icon_on: String,
    /// The icon shown while not tracking.
    pub icon_off: String,
    /// The text shown before the first poll.
    pub text: Option<String>,
}

/// The same options under the block's other name.
pub type SuperToggleConfig = TimeWarriorConfig;

impl TimeWarriorConfig {
    pub fn default_command_state() -> (r: String)
        ensures
            r@ == "timew"@,
    {
        String::from_str("timew")
    }

    pub fn default_command_on() -> (r: String)
        ensures
            r@ == "timew continue"@,
    {
        String::from_str("timew continue")
    }

    pub fn default_command_off() -> (r: String)
        ensures
            r@ == "timew stop"@,
    {
        String::from_str("timew stop")
    }

    pub fn default_regex_on() -> (r: String)
        ensures
            r@ == "Tracking (?P<tags>.+)\n"@,
    {
        String::from_str("Tracking (?P<tags>.+)\n")
    }

    /// The same expression as `default_regex_on`.
    pub fn default_regex_off() -> (r: String)
        ensures
            r@ == "Tracking (?P<tags>.+)\n"@,
    {
        String::from_str("Tracking (?P<tags>.+)\n")
    }

    pub fn default_format_on() -> (r: String)
        ensures
            r@ == "TW [ {tags} ] {hours}:{minutes}"@,
    {
        String::from_str("TW [ {tags} ] {hours}:{minutes}")
    }

    pub fn default_format_off() -> (r: String)
        ensures
            r@ == "TW IDLE"@,
    {
        String::from_str("TW IDLE")
    }

    pub fn default_icon_on() -> (r: String)
        ensures
            r@ == "toggle_on"@,
    {
        String::from_str("toggle_on")
    }

    pub fn default_icon_off() -> (r: String)
        ensures
            r@ == "toggle_off"@,
    {
        String::from_str("toggle_off")
    }
}

impl Default for TimeWarriorConfig {
    fn default() -> (r: TimeWarriorConfig)
        ensures
            r.interval is None,
            r.command_state@ == "timew"@,
            r.command_on@ == "timew continue"@,
            r.command_off@ == "timew stop"@,
            r.regex_on@ == "Tracking (?P<tags>.+)\n"@,
            r.regex_off@ == "Tracking (?P<tags>.+)\n"@,
            r.format_on@ == "TW [ {tags} ] {hours}:{minutes}"@,
            r.format_off@ == "TW IDLE"@,
            r.icon_on@ == "toggle_on"@,
            r.icon_off@ == "toggle_off"@,
            r.text is None,
    {
        TimeWarriorConfig {
            interval: None,
            command_state: TimeWarriorConfig::default_command_state(),
            command_on: TimeWarriorConfig::default_command_on(),
            command_off: TimeWarriorConfig::default_command_off(),
            regex_on: TimeWarriorConfig::default_regex_on(),
            regex_off: TimeWarriorConfig::default_regex_off(),
            format_on: TimeWarriorConfig::default_format_on(),
            format_off: TimeWarriorConfig::default_format_off(),
            icon_on: TimeWarriorConfig::default_icon_on(),
            icon_off: TimeWarriorConfig::default_icon_off(),
            text: None,
        }
    }
}

/// A block that shows and toggles a time tracker.
pub struct TimeWarrior {
    id: usize,
    widget: TextWidget,
    toggled: bool,
    command_state: String,
    command_on: String,
    command_off: String,
    regex_on: FieldPattern,
    regex_off: FieldPattern,
    format_on: FormatTemplate,
    format_off: FormatTemplate,
    icon_on: String,
    icon_off: String,
    update_interval: Option<Duration>,
}

impl TimeWarrior {
    #[verifier::type_invariant]
    spec fn inv(self) -> bool {
        self@.wf()
    }
}

/// The same block under its other name.
pub type SuperToggle = TimeWarrior;

/// A block as a mathematical value.
pub ghost struct BlockView {
    pub id: usize,
    /// Whether tracking was on at the last successful poll.
    pub toggled: bool,
    pub widget: WidgetView,
    pub command_state: Seq<char>,
    pub command_on: Seq<char>,
    pub command_off: Seq<char>,
    pub regex_on: Seq<char>,
    pub regex_off: Seq<char>,
    pub format_on: Seq<Piece>,
    pub format_off: Seq<Piece>,
    pub icon_on: Seq<char>,
    pub icon_off: Seq<char>,
    pub interval: Option<Duration>,
}

impl View for TimeWarrior {
    type V = BlockView;

    closed spec fn view(&self) -> BlockView {
        BlockView {
            id: self.id,
            toggled: self.toggled,
            widget: self.widget@,
            command_state: self.command_state@,
            command_on: self.command_on@,
            command_off: self.command_off@,
            regex_on: self.regex_on@,
            regex_off: self.regex_off@,
            format_on: self.format_on@,
            format_off: self.format_off@,
            icon_on: self.icon_on@,
            icon_off: self.icon_off@,
            interval: self.update_interval,
        }
    }
}

/// What a poll concludes from the state command's output.
pub ghost enum Poll {
    /// Tracking is `on`, and the widget shows `text`.
    Shown { on: bool, text: Seq<char> },
    /// Neither expression matched; the start of the output.
    NoMatch(Seq<char>),
    /// The chosen template names this field, which the expression lacks.
    MissingField(Seq<char>),
}

impl BlockView {
    pub open spec fn icon_for(self, on: bool) -> Seq<char> {
        if on {
            self.icon_on
        } else {
            self.icon_off
        }
    }

    pub open spec fn format_for(self, on: bool) -> Seq<Piece> {
        if on {
            self.format_on
        } else {
            self.format_off
        }
    }

    /// The command a click runs when tracking is `on`: the one that turns it
    /// the other way.
    pub open spec fn command_for(self, on: bool) -> Seq<char> {
        if on {
            self.command_off
        } else {
            self.command_on
        }
    }

    /// Whether every placeholder of each template can be filled from its
    /// expression: it is one of `tags`, `hours` and `minutes`, or a named
    /// group of the expression.
    pub open spec fn wf(self) -> bool {
        &&& first_unknown(self.format_on, capture_names_of(self.regex_on)) is None
        &&& first_unknown(self.format_off, capture_names_of(self.regex_off)) is None
    }

    /// What the block makes of the state command's output `out`: the
    /// template of the state it classifies as, rendered with the captured
    /// fields and an empty value for each of `tags`, `hours` and `minutes`
    /// that the expression does not capture.
    pub open spec fn poll(self, out: Seq<char>) -> Poll {
        match classification_of(self.regex_on, self.regex_off, out) {
            Ok((on, fields)) => match render_pieces(self.format_for(on), display_fields(fields)) {
                Ok(text) => Poll::Shown { on, text },
                Err(name) => Poll::MissingField(name),
            },
            Err(snippet) => Poll::NoMatch(snippet),
        }
    }

    /// The block after a poll: a shown state replaces toggle, icon and text
    /// and clears the widget to idle; a fault changes nothing.
    pub open spec fn after_poll(self, p: Poll) -> BlockView {
        match p {
            Poll::Shown { on, text } => BlockView {
                toggled: on,
                widget: WidgetView {
                    icon: Some(self.icon_for(on)),
                    text,
                    state: WidgetState::Idle,
                    ..self.widget
                },
                ..self
            },
            _ => self,
        }
    }

    /// The block after the action command of a click: idle where it
    /// succeeded, critical where it did not. The toggle is left as it was.
    pub open spec fn after_click(self, succeeded: bool) -> BlockView {
        BlockView {
            widget: WidgetView {
                state: if succeeded {
                    WidgetState::Idle
                } else {
                    WidgetState::Critical
                },
                ..self.widget
            },
            ..self
        }
    }
}

/// Whether an executable poll result is the one that `p` calls for, for a
/// block polled every `interval`.
pub open spec fn poll_reply(
    r: Result<Option<Duration>, BlockError>,
    p: Poll,
    interval: Option<Duration>,
) -> bool {
    match p {
        Poll::Shown { .. } => r == Ok::<_, BlockError>(interval),
        Poll::NoMatch(s) => r matches Err(BlockError::Classify(ClassifyError::NoMatch(m))) && m@ == s,
        Poll::MissingField(n) => r matches Err(BlockError::Render(RenderError::MissingField(m)))
            && m@ == n,
    }
}

/// The view of a block freshly built from `config`, with its patterns and
/// templates compiled.
pub open spec fn built_from(id: usize, config: TimeWarriorConfig) -> BlockView {
    BlockView {
        id,
        toggled: false,
        widget: WidgetView {
            instance: id,
            icon: None,
            text: match config.text {
                Some(t) => t@,
                None => Seq::empty(),
            },
            state: WidgetState::Idle,
        },
        command_state: config.command_state@,
        command_on: config.command_on@,
        command_off: config.command_off@,
        regex_on: config.regex_on@,
        regex_off: config.regex_off@,
        format_on: parse_template(config.format_on@)->Ok_0,
        format_off: parse_template(config.format_off@)->Ok_0,
        icon_on: config.icon_on@,
        icon_off: config.icon_off@,
        interval: config.interval,
    }
}

impl TimeWarrior {
    /// Builds a block: compiles both expressions, then both templates, then
    /// checks that each template names only fields its expression can fill;
    /// fails on the first fault.
    pub fn new(id: usize, config: TimeWarriorConfig) -> (r: Result<TimeWarrior, ConfigError>)
        ensures
            !regex_compiles(config.regex_on@) ==> (r matches Err(ConfigError::RegexOn(e))
                && e.pattern@ == config.regex_on@),
            regex_compiles(config.regex_on@) && !regex_compiles(config.regex_off@) ==> (r matches Err(
                ConfigError::RegexOff(e),
            ) && e.pattern@ == config.regex_off@),
            regex_compiles(config.regex_on@) && regex_compiles(config.regex_off@) ==> match parse_template(
                config.format_on@,
            ) {
                Err(e) => r == Err::<TimeWarrior, _>(ConfigError::FormatOn(e)),
                Ok(pieces_on) => match parse_template(config.format_off@) {
                    Err(e) => r == Err::<TimeWarrior, _>(ConfigError::FormatOff(e)),
                    Ok(pieces_off) => match first_unknown(
                        pieces_on,
                        capture_names_of(config.regex_on@),
                    ) {
                        Some(n) => (r matches Err(ConfigError::UnknownFieldOn(m)) && m@ == n),
                        None => match first_unknown(pieces_off, capture_names_of(config.regex_off@)) {
                            Some(n) => (r matches Err(ConfigError::UnknownFieldOff(m)) && m@ == n),
                            None => (r matches Ok(b) && b@ == built_from(id, config) && b@.wf()),
                        },
                    },
                },
            },
    {
        let regex_on = match FieldPattern::new(config.regex_on.as_str()) {
            Ok(p) => p,
            Err(e) => return Err(ConfigError::RegexOn(e)),
        };
        let regex_off = match FieldPattern::new(config.regex_off.as_str()) {
            Ok(p) => p,
            Err(e) => return Err(ConfigError::RegexOff(e)),
        };
        let format_on = match FormatTemplate::new(config.format_on.as_str()) {
            Ok(t) => t,
            Err(e) => return Err(ConfigError::FormatOn(e)),
        };
        let format_off = match FormatTemplate::new(config.format_off.as_str()) {
            Ok(t) => t,
            Err(e) => return Err(ConfigError::FormatOff(e)),
        };
        match unknown_field(&format_on, &regex_on.group_names()) {
            Some(n) => return Err(ConfigError::UnknownFieldOn(n)),
            None => {},
        }
        match unknown_field(&format_off, &regex_off.group_names()) {
            Some(n) => return Err(ConfigError::UnknownFieldOff(n)),
            None => {},
        }
        let text = match config.text {
            Some(t) => t,
            None => String::new(),
        };
        Ok(
            TimeWarrior {
                id,
                widget: TextWidget::new(id, text),
                toggled: false,
                command_state: config.command_state,
                command_on: config.command_on,
                command_off: config.command_off,
                regex_on,
                regex_off,
                format_on,
                format_off,
                icon_on: config.icon_on,
                icon_off: config.icon_off,
                update_interval: config.interval,
            },
        )
    }

    /// Refreshes the block from the state command's result.
    ///
    /// The output is classified and the template of that state rendered,
    /// with an empty value for each of `tags`, `hours` and `minutes` that the
    /// expression does not capture; only then are toggle, icon and text
    /// replaced and the widget set idle. An output that classifies is always
    /// shown.
    /// On any fault nothing changes and the fault is returned. On success the
    /// configured interval is returned, as the delay before the next poll.
    pub fn update(&mut self, state_output: Result<String, RunError>) -> (r: Result<
        Option<Duration>,
        BlockError,
    >)
        ensures
            match state_output {
                Ok(out) => {
                    &&& final(self)@ == old(self)@.after_poll(old(self)@.poll(out@))
                    &&& poll_reply(r, old(self)@.poll(out@), old(self)@.interval)
                },
                Err(e) => {
                    &&& final(self)@ == old(self)@
                    &&& r == Err::<Option<Duration>, _>(BlockError::State(e))
                },
            },
            r is Err ==> final(self)@ == old(self)@,
            r matches Ok(d) ==> d == old(self)@.interval,
            final(self)@.wf(),
            (state_output matches Ok(out) && classification_of(
                old(self)@.regex_on,
                old(self)@.regex_off,
                out@,
            ) is Ok) ==> r is Ok,
            r is Ok ==> {
                &&& state_output matches Ok(out)
                &&& classification_of(old(self)@.regex_on, old(self)@.regex_off, out@) matches Ok(
                    (on, fields),
                )
                &&& final(self)@.toggled == on
                &&& final(self)@.widget.icon == Some(old(self)@.icon_for(on))
                &&& render_pieces(old(self)@.format_for(on), display_fields(fields)) == Ok::<
                    _,
                    Seq<char>,
                >(
                    final(self)@.widget.text,
                )
            },
    {
        proof {
            use_type_invariant(&*self);
        }
        let out = match state_output {
            Ok(out) => out,
            Err(e) => return Err(BlockError::State(e)),
        };
        let c = match classify(out.as_str(), &self.regex_on, &self.regex_off) {
            Ok(c) => c,
            Err(e) => return Err(BlockError::Classify(e)),
        };
        proof {
            classified_output_is_shown(self@, out@);
        }
        let fields = with_blanks(c.fields);
        let rendered = if c.on {
            self.format_on.render(&fields)
        } else {
            self.format_off.render(&fields)
        };
        let text = match rendered {
            Ok(t) => t,
            Err(e) => return Err(BlockError::Render(e)),
        };
        self.toggled = c.on;
        self.widget.icon = Some(
            if c.on {
                self.icon_on.clone()
            } else {
                self.icon_off.clone()
            },
        );
        self.widget.text = text;
        self.widget.state = WidgetState::Idle;
        Ok(self.update_interval)
    }

    /// On a click, reads the tracker's state afresh from the state command's
    /// result and picks the command that turns it the other way.
    pub fn click_command(&self, state_output: Result<String, RunError>) -> (r: Result<
        String,
        BlockError,
    >)
        ensures
            match state_output {
                Ok(out) => match classification_of(self@.regex_on, self@.regex_off, out@) {
                    Ok((on, _)) => r matches Ok(c) && c@ == self@.command_for(on),
                    Err(s) => r matches Err(BlockError::Classify(ClassifyError::NoMatch(m))) && m@
                        == s,
                },
                Err(e) => r == Err::<String, _>(BlockError::State(e)),
            },
    {
        let out = match state_output {
            Ok(out) => out,
            Err(e) => return Err(BlockError::State(e)),
        };
        match classify(out.as_str(), &self.regex_on, &self.regex_off) {
            Ok(c) => if c.on {
                Ok(self.command_off.clone())
            } else {
                Ok(self.command_on.clone())
            },
            Err(e) => Err(BlockError::Classify(e)),
        }
    }

    /// Records how a click's action command went: `Ok(true)` where it ran
    /// and exited with success. The widget turns critical on any other
    /// outcome and idle on success; the toggle is not touched. Returns
    /// whether the block should now be refreshed by an `update`.
    pub fn click_outcome(&mut self, action: Result<bool, RunError>) -> (refresh: bool)
        ensures
            refresh == (action matches Ok(ok) && ok),
            final(self)@ == old(self)@.after_click(refresh),
            final(self)@.toggled == old(self)@.toggled,
            final(self)@.wf(),
    {
        proof {
            use_type_invariant(&*self);
        }
        let succeeded = match action {
            Ok(ok) => ok,
            Err(_) => false,
        };
        if succeeded {
            self.widget.state = WidgetState::Idle;
        } else {
            self.widget.state = WidgetState::Critical;
        }
        succeeded
    }

    /// The widget the bar draws.
    pub fn widget(&self) -> (r: &TextWidget)
        ensures
            r@ == self@.widget,
    {
        &self.widget
    }

    pub fn id(&self) -> (r: usize)
        ensures
            r == self@.id,
    {
        self.id
    }

    /// Whether tracking was on at the last successful poll.
    pub fn toggled(&self) -> (r: bool)
        ensures
            r == self@.toggled,
    {
        self.toggled
    }

    /// The shell command that reads the tracker's state.
    pub fn command_state(&self) -> (r: &String)
        ensures
            r@ == self@.command_state,
    {
        &self.command_state
    }

    pub fn update_interval(&self) -> (r: Option<Duration>)
        ensures
            r == self@.interval,
    {
        self.update_interval
    }
}

/// A click whose action command failed leaves the toggle as it was before
/// the click, and marks the widget critical.
pub proof fn failed_click_keeps_toggle(v: BlockView)
    ensures
        v.after_click(false).toggled == v.toggled,
        v.after_click(false).widget.state == WidgetState::Critical,
{
}

/// After a click whose action command succeeded, the refresh that follows
/// takes the toggle, icon and text from the state command's fresh output,
/// whatever the toggle was before; where that output cannot be classified
/// or shown, the block stays as the click left it.
pub proof fn refresh_after_click_reads_state(v: BlockView, out: Seq<char>)
    requires
        v.wf(),
    ensures
        ({
            let clicked = v.after_click(true);
            let after = clicked.after_poll(clicked.poll(out));
            match classification_of(v.regex_on, v.regex_off, out) {
                Ok((on, fields)) => {
                    &&& after.toggled == on
                    &&& after.widget.icon == Some(v.icon_for(on))
                    &&& render_pieces(v.format_for(on), display_fields(fields)) == Ok::<
                        _,
                        Seq<char>,
                    >(after.widget.text)
                    &&& after.widget.state == WidgetState::Idle
                },
                Err(_) => after == clicked,
            }
        }),
{
    classified_output_is_shown(v, out);
}

/// In a well-formed block, an output that classifies is always shown: the
/// template of its state renders, so the toggle follows the output.
pub proof fn classified_output_is_shown(v: BlockView, out: Seq<char>)
    requires
        v.wf(),
    ensures
        classification_of(v.regex_on, v.regex_off, out) matches Ok((on, fields)) ==> v.poll(out)
            matches Poll::Shown { on: shown, .. } && shown == on,
{
    match captures_of(v.regex_on, out) {
        Some(g) => lemma_checked_template_renders(v.format_on, capture_names_of(v.regex_on), g),
        None => match captures_of(v.regex_off, out) {
            Some(g) => lemma_checked_template_renders(
                v.format_off,
                capture_names_of(v.regex_off),
                g,
            ),
            None => {},
        },
    }
}

} // verus!
