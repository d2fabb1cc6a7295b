use fm_inspect::actions::Action;
use fm_inspect::actions::Event;
use fm_inspect::actions::PageRef;
use fm_inspect::actions::Target;
use fm_inspect::session::login_script;
use fm_inspect::session::ImageUpload;
use fm_inspect::session::StationFlow;
use fm_inspect::session::StationJob;
use fm_inspect::session::Step;

struct Responses {
    freq: String,
    ant_label: String,
    power: Option<String>,
    gain: Option<String>,
    height: Option<String>,
}

fn plain_responses() -> Responses {
    Responses {
        freq: " 101.5 ".to_string(),
        ant_label: "Dipole".to_string(),
        power: Some("450".to_string()),
        gain: Some("".to_string()),
        height: None,
    }
}

fn respond_to(a: &Action, r: &Responses) -> Event {
    match a {
        Action::ReadText(_) => Event::Text(r.freq.clone()),
        Action::ReadSelectedLabel(_) => Event::Text(r.ant_label.clone()),
        Action::ReadValueAttr(t) => {
            let v = match t {
                Target::PowerInput => r.power.clone(),
                Target::GainInput => r.gain.clone(),
                Target::HeightInput => r.height.clone(),
                _ => None,
            };
            match v {
                Some(s) => Event::Text(s),
                None => Event::NoValue,
            }
        }
        _ => Event::Completed,
    }
}

fn job_with(images: Vec<(&str, &str)>, date: Option<&str>) -> StationJob {
    StationJob {
        station_id: "ST42".to_string(),
        images: images
            .into_iter()
            .map(|(p, d)| ImageUpload { path: p.to_string(), description: d.to_string() })
            .collect(),
        inspection_date: date.map(|d| d.to_string()),
    }
}

fn run_to_end(flow: &mut StationFlow, r: &Responses) -> Vec<Action> {
    let mut actions = Vec::new();
    let mut fuel = 1000;
    while let Some(a) = flow.current_action() {
        assert!(fuel > 0, "the run does not terminate");
        fuel -= 1;
        let ev = respond_to(&a, r);
        actions.push(a);
        flow.advance(ev);
    }
    actions
}

#[test]
fn happy_run_completes_with_balanced_frames() {
    let job = job_with(vec![("ST42/a.png", "Deviation"), ("ST42/b.png", "Date Image")], Some("15/03/24"));
    let mut flow = StationFlow::new(job);
    let actions = run_to_end(&mut flow, &plain_responses());
    assert_eq!(flow.step, Step::Done);
    assert_eq!(flow.depth, 0);
    let enters = actions.iter().filter(|a| matches!(a, Action::EnterModalFrame)).count();
    let exits = actions.iter().filter(|a| matches!(a, Action::ExitFrame)).count();
    // one search modal, three differential rounds, two uploads, one equipment modal
    assert_eq!(enters, 7);
    assert_eq!(exits, 7);
}

#[test]
fn panels_expand_in_order() {
    let job = job_with(vec![], None);
    let mut flow = StationFlow::new(job);
    let actions = run_to_end(&mut flow, &plain_responses());
    let panels: Vec<u8> = actions
        .iter()
        .filter_map(|a| match a {
            Action::Click(c) => match c.target {
                Target::PanelHeader(i) => Some(i),
                _ => None,
            },
            _ => None,
        })
        .collect();
    assert_eq!(panels, vec![1, 2, 3, 4]);
}

#[test]
fn differential_rounds_use_loop_index() {
    let job = job_with(vec![], None);
    let mut flow = StationFlow::new(job);
    let actions = run_to_end(&mut flow, &plain_responses());
    let rounds: Vec<u8> = actions
        .iter()
        .filter_map(|a| match a {
            Action::SelectIndex(Target::DiffParamSelect, i) => Some(*i),
            _ => None,
        })
        .collect();
    assert_eq!(rounds, vec![1, 2, 3]);
}

#[test]
fn uploads_follow_image_order_with_fixed_type() {
    let job = job_with(
        vec![("ST42/a.png", "Unwanted Emission"), ("ST42/b.png", "Date Image")],
        None,
    );
    let mut flow = StationFlow::new(job);
    let actions = run_to_end(&mut flow, &plain_responses());
    let files: Vec<String> = actions
        .iter()
        .filter_map(|a| match a {
            Action::SendKeys(Target::FileInput, s) => Some(s.clone()),
            _ => None,
        })
        .collect();
    assert_eq!(files, vec!["ST42/a.png".to_string(), "ST42/b.png".to_string()]);
    let remarks: Vec<String> = actions
        .iter()
        .filter_map(|a| match a {
            Action::SendKeys(Target::RemarkField, s) => Some(s.clone()),
            _ => None,
        })
        .collect();
    // the two image descriptions, then the fixed opinion remark
    assert_eq!(remarks.len(), 3);
    assert_eq!(remarks[0], "Unwanted Emission");
    assert_eq!(remarks[1], "Date Image");
    let type_picks = actions
        .iter()
        .filter(|a| matches!(a, Action::SelectIndex(Target::ImageTypeSelect, 2)))
        .count();
    assert_eq!(type_picks, 2);
}

#[test]
fn frequency_is_copied_trimmed() {
    let job = job_with(vec![], None);
    let mut flow = StationFlow::new(job);
    let actions = run_to_end(&mut flow, &plain_responses());
    let freq_writes: Vec<String> = actions
        .iter()
        .filter_map(|a| match a {
            Action::SendKeys(Target::FrequencyInput, s) => Some(s.clone()),
            _ => None,
        })
        .collect();
    assert_eq!(freq_writes, vec!["101.5".to_string()]);
}

#[test]
fn prefilled_power_is_never_overwritten() {
    let job = job_with(vec![], None);
    let mut flow = StationFlow::new(job);
    let mut r = plain_responses();
    r.power = Some("450".to_string());
    let actions = run_to_end(&mut flow, &r);
    assert!(!actions.iter().any(|a| matches!(a, Action::SendKeys(Target::PowerInput, _))));
}

#[test]
fn blank_power_is_backfilled_with_default() {
    let job = job_with(vec![], None);
    let mut flow = StationFlow::new(job);
    let mut r = plain_responses();
    r.power = Some("  ".to_string());
    let actions = run_to_end(&mut flow, &r);
    let power_writes: Vec<String> = actions
        .iter()
        .filter_map(|a| match a {
            Action::SendKeys(Target::PowerInput, s) => Some(s.clone()),
            _ => None,
        })
        .collect();
    assert_eq!(power_writes, vec!["500".to_string()]);
}

#[test]
fn gain_and_height_backfill_rules() {
    let job = job_with(vec![], None);
    let mut flow = StationFlow::new(job);
    // gain blank -> filled with "6"; height attribute missing -> left alone
    let r = plain_responses();
    let actions = run_to_end(&mut flow, &r);
    assert!(actions.iter().any(|a| matches!(a, Action::SendKeys(Target::GainInput, s) if s == "6")));
    assert!(!actions.iter().any(|a| matches!(a, Action::SendKeys(Target::HeightInput, _))));
}

#[test]
fn placeholder_antenna_type_gets_selected() {
    let job = job_with(vec![], None);
    let mut flow = StationFlow::new(job);
    let mut r = plain_responses();
    r.ant_label = "กรุณาเลือก".to_string();
    let actions = run_to_end(&mut flow, &r);
    assert!(actions
        .iter()
        .any(|a| matches!(a, Action::SelectIndex(Target::AntennaTypeSelect, 1))));
}

#[test]
fn chosen_antenna_type_is_left_alone() {
    let job = job_with(vec![], None);
    let mut flow = StationFlow::new(job);
    let actions = run_to_end(&mut flow, &plain_responses());
    assert!(!actions
        .iter()
        .any(|a| matches!(a, Action::SelectIndex(Target::AntennaTypeSelect, _))));
}

#[test]
fn extracted_date_is_cleared_then_written() {
    let job = job_with(vec![], Some("15/03/24"));
    let mut flow = StationFlow::new(job);
    let actions = run_to_end(&mut flow, &plain_responses());
    let n = actions.len();
    assert!(n >= 2);
    assert_eq!(actions[n - 2], Action::ClearField(Target::InspectionDateInput));
    match &actions[n - 1] {
        Action::SendKeys(Target::InspectionDateInput, s) => assert_eq!(s, "15/03/24"),
        other => panic!("unexpected final action {:?}", other),
    }
}

#[test]
fn missing_date_leaves_field_untouched() {
    let job = job_with(vec![], None);
    let mut flow = StationFlow::new(job);
    let actions = run_to_end(&mut flow, &plain_responses());
    assert_eq!(flow.step, Step::Done);
    assert!(!actions
        .iter()
        .any(|a| matches!(a, Action::ClearField(Target::InspectionDateInput))));
    assert!(!actions
        .iter()
        .any(|a| matches!(a, Action::SendKeys(Target::InspectionDateInput, _))));
}

#[test]
fn failure_inside_modal_still_exits_the_frame() {
    let job = job_with(vec![], None);
    let mut flow = StationFlow::new(job);
    // walk until the search modal frame has been entered
    let mut fuel = 100;
    loop {
        assert!(fuel > 0);
        fuel -= 1;
        let a = flow.current_action().expect("ended early");
        if matches!(a, Action::EnterModalFrame) {
            flow.advance(Event::Completed);
            break;
        }
        let ev = respond_to(&a, &plain_responses());
        flow.advance(ev);
    }
    assert_eq!(flow.depth, 1);
    // the next interaction fails
    let a = flow.current_action().expect("ended early");
    assert!(!matches!(a, Action::ExitFrame));
    flow.advance(Event::Failed);
    // before ending, the machine issues the balancing frame exit
    let exit = flow.current_action().expect("ended early");
    assert_eq!(exit, Action::ExitFrame);
    flow.advance(Event::Completed);
    assert_eq!(flow.step, Step::Failed);
    assert_eq!(flow.depth, 0);
    assert!(flow.current_action().is_none());
}

#[test]
fn failure_outside_modal_ends_immediately() {
    let job = job_with(vec![], None);
    let mut flow = StationFlow::new(job);
    let a = flow.current_action().expect("fresh flow has an action");
    assert!(matches!(a, Action::Click(_)));
    flow.advance(Event::Failed);
    assert_eq!(flow.step, Step::Failed);
    assert_eq!(flow.depth, 0);
    assert!(flow.current_action().is_none());
}

#[test]
fn failed_frame_exit_still_ends_balanced() {
    let job = job_with(vec![], None);
    let mut flow = StationFlow::new(job);
    let mut fuel = 100;
    loop {
        assert!(fuel > 0);
        fuel -= 1;
        let a = flow.current_action().expect("ended early");
        if matches!(a, Action::ExitFrame) {
            break;
        }
        let ev = respond_to(&a, &plain_responses());
        flow.advance(ev);
    }
    flow.advance(Event::Failed);
    assert_eq!(flow.step, Step::Failed);
    assert_eq!(flow.depth, 0);
}

#[test]
fn station_id_is_typed_into_the_search_modal() {
    let job = job_with(vec![], None);
    let mut flow = StationFlow::new(job);
    let actions = run_to_end(&mut flow, &plain_responses());
    assert!(actions
        .iter()
        .any(|a| matches!(a, Action::SendKeys(Target::SiteCodeInput, s) if s == "ST42")));
}

#[test]
fn login_script_shape() {
    let script = login_script("user".to_string(), "pass".to_string());
    assert_eq!(script.len(), 4);
    assert_eq!(script[0], Action::Goto(PageRef::LoginPage));
    match &script[1] {
        Action::SendKeys(Target::LoginUserField, s) => assert_eq!(s, "user"),
        other => panic!("unexpected action {:?}", other),
    }
    match &script[2] {
        Action::SendKeys(Target::LoginPasswordField, s) => assert_eq!(s, "pass"),
        other => panic!("unexpected action {:?}", other),
    }
    assert!(matches!(&script[3], Action::Click(c) if c.target == Target::LoginSubmitButton));
}
