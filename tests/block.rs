use std::time::Duration;

use timewarrior_block::block::{BlockError, ConfigError, RunError, WidgetState};
use timewarrior_block::classify::ClassifyError;
use timewarrior_block::template::{RenderError, TemplateError};
use timewarrior_block::{SuperToggle, SuperToggleConfig, TimeWarrior, TimeWarriorConfig};

const IDLE_OUTPUT: &str = "There is no active time tracking.";
const FULL_ON: &str = r"(?s)Tracking (?P<tags>.+)\n.*Total\s+(?P<hours>\d+):(?P<minutes>\d{2}):\d{2}";
const TAGS_ON: &str = r"Tracking (?P<tags>.+)\n(?:.*Total\s+(?P<hours>\d+):(?P<minutes>\d{2}))?";

fn config(regex_on: &str, regex_off: &str) -> TimeWarriorConfig {
    let mut c = TimeWarriorConfig::default();
    c.regex_on = regex_on.to_string();
    c.regex_off = regex_off.to_string();
    c
}

fn block(regex_on: &str, regex_off: &str) -> TimeWarrior {
    TimeWarrior::new(7, config(regex_on, regex_off)).unwrap()
}

fn icon(b: &TimeWarrior) -> Option<String> {
    b.widget().icon().cloned()
}

#[test]
fn idle_tracker_shows_off() {
    let mut b = block(r"Tracking (?P<tags>.+)\n", ".");
    let r = b.update(Ok(IDLE_OUTPUT.to_string()));
    assert_eq!(r, Ok(None));
    assert!(!b.toggled());
    assert_eq!(icon(&b).as_deref(), Some("toggle_off"));
    assert_eq!(b.widget().text(), "TW IDLE");
    assert_eq!(b.widget().state(), WidgetState::Idle);
}

#[test]
fn active_with_tag() {
    let mut b = block(r"Tracking (?P<tags>.+)\n", ".");
    let out = "Tracking coding project_x\n  Started 2024-01-02T09:00:00";
    assert_eq!(b.update(Ok(out.to_string())), Ok(None));
    assert!(b.toggled());
    assert_eq!(icon(&b).as_deref(), Some("toggle_on"));
    assert_eq!(b.widget().text(), "TW [ coding project_x ] :");
}

#[test]
fn absent_optional_groups_render_empty() {
    let mut b = block(TAGS_ON, ".");
    let out = "Tracking coding project_x\n  Started 2024-01-02T09:00:00";
    assert_eq!(b.update(Ok(out.to_string())), Ok(None));
    assert_eq!(b.widget().text(), "TW [ coding project_x ] :");
}

#[test]
fn default_configuration_tracks() {
    let mut b = TimeWarrior::new(4, TimeWarriorConfig::default()).unwrap();
    let out = "Tracking coding\n  Started 2024-01-02T09:00:00";
    assert_eq!(b.update(Ok(out.to_string())), Ok(None));
    assert!(b.toggled());
    assert_eq!(b.widget().text(), "TW [ coding ] :");
}

#[test]
fn captured_field_wins_over_blank() {
    let mut c = config(r"Tracking (?P<tags>\w+) (?P<extra>\w+)", ".");
    c.format_on = "{tags}/{extra}/{hours}".to_string();
    let mut b = TimeWarrior::new(5, c).unwrap();
    assert_eq!(b.update(Ok("Tracking a b".to_string())), Ok(None));
    assert_eq!(b.widget().text(), "a/b/");
}

#[test]
fn unknown_placeholder_is_refused_at_construction() {
    let mut c = config(r"Tracking (?P<tags>.+)", ".");
    c.format_on = "{tags} {project}".to_string();
    assert_eq!(
        TimeWarrior::new(0, c).err(),
        Some(ConfigError::UnknownFieldOn("project".to_string()))
    );
    let mut c = config(r"Tracking (?P<tags>.+)", r"(?P<why>idle)");
    c.format_off = "{why} {who}".to_string();
    assert_eq!(
        TimeWarrior::new(0, c).err(),
        Some(ConfigError::UnknownFieldOff("who".to_string()))
    );
    let mut c = config(r"Tracking (?P<tags>.+)", r"(?P<why>idle)");
    c.format_off = "{why} {minutes}".to_string();
    assert!(TimeWarrior::new(0, c).is_ok());
}

#[test]
fn active_with_full_fields() {
    let mut b = block(FULL_ON, ".");
    let out = "Tracking focus\n  Total 1:07:33";
    assert_eq!(b.update(Ok(out.to_string())), Ok(None));
    assert!(b.toggled());
    assert_eq!(b.widget().text(), "TW [ focus ] 1:07");
}

#[test]
fn click_while_off_succeeds() {
    let mut b = block(FULL_ON, ".");
    b.update(Ok(IDLE_OUTPUT.to_string())).unwrap();
    assert!(!b.toggled());
    let cmd = b.click_command(Ok(IDLE_OUTPUT.to_string())).unwrap();
    assert_eq!(cmd, "timew continue");
    assert!(b.click_outcome(Ok(true)));
    assert!(!b.toggled());
    b.update(Ok("Tracking focus\n  Total 0:00:01".to_string())).unwrap();
    assert!(b.toggled());
    assert_eq!(icon(&b).as_deref(), Some("toggle_on"));
    assert!(b.widget().text().contains("focus"));
    assert_eq!(b.widget().state(), WidgetState::Idle);
}

#[test]
fn click_while_on_fails() {
    let mut b = block(FULL_ON, ".");
    let on = "Tracking focus\n  Total 1:07:33";
    b.update(Ok(on.to_string())).unwrap();
    assert!(b.toggled());
    let cmd = b.click_command(Ok(on.to_string())).unwrap();
    assert_eq!(cmd, "timew stop");
    assert!(!b.click_outcome(Ok(false)));
    assert_eq!(b.widget().state(), WidgetState::Critical);
    assert!(b.toggled());
    b.update(Ok(on.to_string())).unwrap();
    assert!(b.toggled());
    assert_eq!(b.widget().state(), WidgetState::Idle);
}

#[test]
fn click_whose_command_cannot_start_is_critical() {
    let mut b = block(FULL_ON, ".");
    b.update(Ok(IDLE_OUTPUT.to_string())).unwrap();
    assert!(!b.click_outcome(Err(RunError::Spawn("no shell".to_string()))));
    assert_eq!(b.widget().state(), WidgetState::Critical);
    assert!(!b.toggled());
}

#[test]
fn click_reads_state_afresh() {
    let mut b = block(FULL_ON, ".");
    b.update(Ok(IDLE_OUTPUT.to_string())).unwrap();
    assert!(!b.toggled());
    let cmd = b.click_command(Ok("Tracking x\n Total 0:01:00".to_string())).unwrap();
    assert_eq!(cmd, "timew stop");
}

#[test]
fn click_with_unreadable_state_is_an_error() {
    let b = block(FULL_ON, "^never$");
    let r = b.click_command(Ok("garbage".to_string()));
    assert_eq!(r, Err(BlockError::Classify(ClassifyError::NoMatch("garbage".to_string()))));
    let e = RunError::Io("broken pipe".to_string());
    assert_eq!(b.click_command(Err(e.clone())), Err(BlockError::State(e)));
}

#[test]
fn unmatched_output_changes_nothing() {
    let mut b = block(FULL_ON, "^There is no");
    b.update(Ok(IDLE_OUTPUT.to_string())).unwrap();
    let r = b.update(Ok("something else".to_string()));
    assert_eq!(r, Err(BlockError::Classify(ClassifyError::NoMatch("something else".to_string()))));
    assert_eq!(r.unwrap_err().tag(), "classify");
    assert!(!b.toggled());
    assert_eq!(icon(&b).as_deref(), Some("toggle_off"));
    assert_eq!(b.widget().text(), "TW IDLE");
}

#[test]
fn runner_failure_changes_nothing() {
    let mut b = block(FULL_ON, ".");
    b.update(Ok("Tracking focus\n  Total 1:07:33".to_string())).unwrap();
    let e = RunError::Spawn("no such shell".to_string());
    let r = b.update(Err(e.clone()));
    assert_eq!(r, Err(BlockError::State(e)));
    assert_eq!(r.unwrap_err().tag(), "state");
    assert!(b.toggled());
    assert_eq!(b.widget().text(), "TW [ focus ] 1:07");
}

#[test]
fn update_returns_configured_interval() {
    let mut c = config(FULL_ON, ".");
    c.interval = Some(Duration::from_secs(5));
    let mut b = TimeWarrior::new(1, c).unwrap();
    assert_eq!(b.update(Ok(IDLE_OUTPUT.to_string())), Ok(Some(Duration::from_secs(5))));
    assert_eq!(b.update_interval(), Some(Duration::from_secs(5)));
    let mut b = block(FULL_ON, ".");
    assert_eq!(b.update(Ok(IDLE_OUTPUT.to_string())), Ok(None));
}

#[test]
fn on_wins_when_both_match() {
    let mut c = config(r"Tracking (?P<tags>\w+)", r"(?P<tags>\w+)");
    c.format_on = "ON {tags}".to_string();
    c.format_off = "OFF {tags}".to_string();
    let mut b = SuperToggle::new(2, c).unwrap();
    b.update(Ok("Tracking focus".to_string())).unwrap();
    assert!(b.toggled());
    assert_eq!(icon(&b).as_deref(), Some("toggle_on"));
    assert_eq!(b.widget().text(), "ON focus");
    b.update(Ok("idle".to_string())).unwrap();
    assert!(!b.toggled());
    assert_eq!(b.widget().text(), "OFF idle");
}

#[test]
fn new_block_shows_initial_text() {
    let mut c: SuperToggleConfig = config(FULL_ON, ".");
    c.text = Some("TW".to_string());
    let b = TimeWarrior::new(3, c).unwrap();
    assert_eq!(b.id(), 3);
    assert_eq!(b.widget().instance(), 3);
    assert_eq!(b.widget().text(), "TW");
    assert_eq!(b.widget().icon(), None);
    assert_eq!(b.widget().state(), WidgetState::Idle);
    assert!(!b.toggled());
    assert_eq!(b.command_state(), "timew");
}

#[test]
fn default_config_values() {
    let c = TimeWarriorConfig::default();
    assert_eq!(c.interval, None);
    assert_eq!(c.command_state, "timew");
    assert_eq!(c.command_on, "timew continue");
    assert_eq!(c.command_off, "timew stop");
    assert_eq!(c.regex_on, "Tracking (?P<tags>.+)\n");
    assert_eq!(c.regex_off, c.regex_on);
    assert_eq!(c.format_on, "TW [ {tags} ] {hours}:{minutes}");
    assert_eq!(c.format_off, "TW IDLE");
    assert_eq!(c.icon_on, "toggle_on");
    assert_eq!(c.icon_off, "toggle_off");
    assert_eq!(c.text, None);
    assert!(TimeWarrior::new(0, c).is_ok());
}

#[test]
fn bad_configuration_is_refused() {
    match TimeWarrior::new(0, config("(unclosed", ".")) {
        Err(ConfigError::RegexOn(e)) => {
            assert_eq!(e.pattern, "(unclosed");
            assert!(!e.message.is_empty());
        }
        _ => panic!("expected a regex_on error"),
    }
    match TimeWarrior::new(0, config(".", "[z-a]")) {
        Err(ConfigError::RegexOff(e)) => assert_eq!(e.pattern, "[z-a]"),
        _ => panic!("expected a regex_off error"),
    }
    let mut c = config(".", ".");
    c.format_on = "TW {tags".to_string();
    assert!(matches!(TimeWarrior::new(0, c), Err(ConfigError::FormatOn(TemplateError::Unclosed))));
    let mut c = config(".", ".");
    c.format_off = "a {} b".to_string();
    assert!(matches!(
        TimeWarrior::new(0, c),
        Err(ConfigError::FormatOff(TemplateError::EmptyPlaceholder(3)))
    ));
}

#[test]
fn render_error_tag() {
    let e = BlockError::Render(RenderError::MissingField("x".to_string()));
    assert_eq!(e.tag(), "render");
}
