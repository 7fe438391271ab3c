use print_to_pdf::options::{build_print_options, PdfNumber};
use print_to_pdf::layout::PageLayout;
use print_to_pdf::pipeline::{file_url, Action, Conversion, ErrorKind, Stage};

fn run(conversion: &mut Conversion, outcomes: &[bool]) -> Vec<Action> {
    let mut actions = vec![conversion.action()];
    for &ok in outcomes {
        conversion.advance(ok);
        actions.push(conversion.action());
    }
    actions
}

#[test]
fn unknown_layout_stops_before_the_browser() {
    let mut c = Conversion::start("poster", None);
    assert_eq!(c.stage, Stage::Failed(ErrorKind::InvalidLayout));
    assert_eq!(c.options, None);
    let actions = run(&mut c, &[true, true, true]);
    assert!(actions.iter().all(|a| *a == Action::Stop));
}

#[test]
fn accepted_layout_carries_its_options() {
    let scale = Some(PdfNumber { bits: 0.5f64.to_bits() });
    let c = Conversion::start("Slideshow", scale);
    assert_eq!(c.stage, Stage::ResolvingPath);
    assert_eq!(c.options, Some(build_print_options(PageLayout::Slideshow, scale)));
}

#[test]
fn unresolved_path_never_launches_the_browser() {
    let mut c = Conversion::start("legal", None);
    let actions = run(&mut c, &[false, true, true]);
    assert_eq!(c.stage, Stage::Failed(ErrorKind::PathResolution));
    assert_eq!(actions[0], Action::ResolvePath);
    assert!(!actions.contains(&Action::LaunchBrowser));
}

#[test]
fn failed_navigation_never_writes() {
    let mut c = Conversion::start("legal", None);
    let actions = run(&mut c, &[true, true, true, false, true, true]);
    assert_eq!(c.stage, Stage::Failed(ErrorKind::Navigation));
    assert!(!actions.contains(&Action::WriteOutput));
}

#[test]
fn failed_load_wait_never_writes() {
    let mut c = Conversion::start("legal", None);
    let actions = run(&mut c, &[true, true, true, true, false, true]);
    assert_eq!(c.stage, Stage::Failed(ErrorKind::Navigation));
    assert!(!actions.contains(&Action::WriteOutput));
}

#[test]
fn each_step_failure_has_its_error() {
    let expected = [
        ErrorKind::PathResolution,
        ErrorKind::BrowserLaunch,
        ErrorKind::TabOpen,
        ErrorKind::Navigation,
        ErrorKind::Navigation,
        ErrorKind::Render,
        ErrorKind::OutputWrite,
    ];
    for (k, kind) in expected.iter().enumerate() {
        let mut c = Conversion::start("legal", None);
        let mut outcomes = vec![true; k];
        outcomes.push(false);
        run(&mut c, &outcomes);
        assert_eq!(c.stage, Stage::Failed(*kind));
    }
}

#[test]
fn successful_run_visits_every_step_in_order() {
    let mut c = Conversion::start("legal", None);
    let actions = run(&mut c, &[true; 7]);
    assert_eq!(
        actions,
        vec![
            Action::ResolvePath,
            Action::LaunchBrowser,
            Action::OpenTab,
            Action::Navigate,
            Action::AwaitLoad,
            Action::PrintToPdf,
            Action::WriteOutput,
            Action::Stop,
        ]
    );
    assert_eq!(c.stage, Stage::Finished);
    c.advance(false);
    assert_eq!(c.stage, Stage::Finished);
}

#[test]
fn file_url_prefixes_the_scheme() {
    assert_eq!(file_url("/home/me/page.html"), "file:///home/me/page.html");
    assert_eq!(file_url(""), "file://");
}
