use html_intake::event::WatchEvent;
use html_intake::pipeline::{
    advance, claims, is_malformed, on_event, step, Command, Config, Failure, Outcome, Phase,
    RenderResult, StagedFile, Transition,
};

const ID: &str = "67e55044-10b1-426f-9247-bb680e5fe0c8";

fn s(text: &str) -> String {
    text.to_string()
}

fn config() -> Config {
    Config { input_dir: s("pages"), output_dir: s("./pdf") }
}

fn staged(path: &str, basename: &str) -> StagedFile {
    StagedFile { path: s(path), basename: s(basename) }
}

fn output(path: &str, bytes: Vec<u8>) -> Command {
    Command::WriteOutput(RenderResult { path: s(path), bytes })
}

fn idle(failure: Option<Failure>) -> Transition {
    Transition { phase: Phase::Idle, command: Command::AwaitEvent, failure }
}

fn pdf_bytes() -> Vec<u8> {
    vec![0x25, 0x50, 0x44, 0x46, 0x2d, 0x31, 0x2e, 0x34]
}

#[test]
fn configuration_defaults() {
    assert_eq!(Config::from_settings(None, None), config());
    assert_eq!(
        Config::from_settings(Some(s("/srv/in")), None),
        Config { input_dir: s("/srv/in"), output_dir: s("./pdf") }
    );
    assert_eq!(
        Config::from_settings(None, Some(s("/srv/out"))),
        Config { input_dir: s("pages"), output_dir: s("/srv/out") }
    );
    assert_eq!(
        Config::from_settings(Some(s("a")), Some(s("b"))),
        Config { input_dir: s("a"), output_dir: s("b") }
    );
}

#[test]
fn report_is_claimed_rendered_written_and_marked() {
    let cfg = config();

    let t = advance(
        &cfg,
        Phase::Idle,
        Outcome::Event(WatchEvent::FileCreated(s("/srv/pages/report.html"))),
        ID,
    );
    assert_eq!(t.phase, Phase::Claiming);
    assert_eq!(
        t.command,
        Command::Claim {
            from: s("/srv/pages/report.html"),
            to: s("pages/67e55044-10b1-426f-9247-bb680e5fe0c8.html")
        }
    );
    assert_eq!(t.failure, None);

    let t = advance(&cfg, t.phase, Outcome::Completed, ID);
    assert_eq!(t, idle(None));

    let t = advance(
        &cfg,
        t.phase,
        Outcome::Event(WatchEvent::FileRenamed(
            s("/srv/pages/report.html"),
            s("/srv/pages/67e55044-10b1-426f-9247-bb680e5fe0c8.html"),
        )),
        ID,
    );
    assert_eq!(
        t.phase,
        Phase::Resolving(staged(
            "/srv/pages/67e55044-10b1-426f-9247-bb680e5fe0c8.html",
            "report.html"
        ))
    );
    assert_eq!(
        t.command,
        Command::Resolve { path: s("/srv/pages/67e55044-10b1-426f-9247-bb680e5fe0c8.html") }
    );

    let t = advance(
        &cfg,
        t.phase,
        Outcome::Resolved(s("/srv/pages/67e55044-10b1-426f-9247-bb680e5fe0c8.html")),
        ID,
    );
    assert_eq!(
        t.command,
        Command::Render {
            url: s("file:///srv/pages/67e55044-10b1-426f-9247-bb680e5fe0c8.html")
        }
    );
    assert_eq!(
        t.phase,
        Phase::Rendering(staged(
            "/srv/pages/67e55044-10b1-426f-9247-bb680e5fe0c8.html",
            "report.html"
        ))
    );

    let t = advance(&cfg, t.phase, Outcome::Rendered(pdf_bytes()), ID);
    assert_eq!(t.command, output("./pdf/report.pdf", pdf_bytes()));
    assert_eq!(
        t.phase,
        Phase::Writing(staged(
            "/srv/pages/67e55044-10b1-426f-9247-bb680e5fe0c8.html",
            "report.html"
        ))
    );
    assert_eq!(t.failure, None);

    let t = advance(&cfg, t.phase, Outcome::Completed, ID);
    assert_eq!(t.phase, Phase::Marking);
    assert_eq!(
        t.command,
        Command::MarkProcessed {
            from: s("/srv/pages/67e55044-10b1-426f-9247-bb680e5fe0c8.html"),
            to: s("pages/report.html.processed")
        }
    );

    let t = advance(&cfg, t.phase, Outcome::Completed, ID);
    assert_eq!(t, idle(None));
}

#[test]
fn csv_produces_no_command() {
    let cfg = config();
    let t = step(
        &cfg,
        Phase::Idle,
        Outcome::Event(WatchEvent::FileCreated(s("/srv/pages/data.csv"))),
    );
    assert_eq!(t, idle(None));
    let t = advance(
        &cfg,
        Phase::Idle,
        Outcome::Event(WatchEvent::FileCreated(s("/srv/pages/notes.txt"))),
        ID,
    );
    assert_eq!(t, idle(None));
}

#[test]
fn render_failure_leaves_the_staged_file_and_the_loop_goes_on() {
    let cfg = config();
    let t = advance(
        &cfg,
        Phase::Idle,
        Outcome::Event(WatchEvent::FileRenamed(
            s("/srv/pages/bad.html"),
            s("/srv/pages/67e55044-10b1-426f-9247-bb680e5fe0c8.html"),
        )),
        ID,
    );
    let t = advance(
        &cfg,
        t.phase,
        Outcome::Resolved(s("/srv/pages/67e55044-10b1-426f-9247-bb680e5fe0c8.html")),
        ID,
    );
    assert!(matches!(t.command, Command::Render { .. }));

    let t = advance(&cfg, t.phase, Outcome::Failed, ID);
    assert_eq!(t, idle(Some(Failure::RenderFailure)));

    let t = advance(
        &cfg,
        t.phase,
        Outcome::Event(WatchEvent::FileCreated(s("/srv/pages/next.html"))),
        ID,
    );
    assert!(matches!(t.command, Command::Claim { .. }));
}

#[test]
fn redelivered_rename_of_a_processed_file_commands_no_write() {
    let cfg = config();
    let event = WatchEvent::FileRenamed(
        s("/srv/pages/report.html"),
        s("/srv/pages/67e55044-10b1-426f-9247-bb680e5fe0c8.html"),
    );
    let t = step(&cfg, Phase::Idle, Outcome::Event(event));
    assert_eq!(
        t.command,
        Command::Resolve { path: s("/srv/pages/67e55044-10b1-426f-9247-bb680e5fe0c8.html") }
    );
    let t = step(&cfg, t.phase, Outcome::Failed);
    assert_eq!(t, idle(Some(Failure::TransientIo)));
}

#[test]
fn marker_rename_event_is_ignored() {
    let cfg = config();
    let t = step(
        &cfg,
        Phase::Idle,
        Outcome::Event(WatchEvent::FileRenamed(
            s("/srv/pages/67e55044-10b1-426f-9247-bb680e5fe0c8.html"),
            s("/srv/pages/report.html.processed"),
        )),
    );
    assert_eq!(t, idle(None));
}

#[test]
fn failed_claim_is_transient() {
    let cfg = config();
    let t = advance(&cfg, Phase::Claiming, Outcome::Failed, ID);
    assert_eq!(t, idle(Some(Failure::TransientIo)));
    let t = advance(&cfg, Phase::Claiming, Outcome::Completed, ID);
    assert_eq!(t, idle(None));
}

#[test]
fn failed_write_does_not_mark() {
    let cfg = config();
    let phase = Phase::Writing(staged("/srv/pages/x.html", "report.html"));
    let t = advance(&cfg, phase, Outcome::Failed, ID);
    assert_eq!(t, idle(Some(Failure::TransientIo)));
}

#[test]
fn failed_mark_is_transient() {
    let cfg = config();
    assert_eq!(
        advance(&cfg, Phase::Marking, Outcome::Failed, ID),
        idle(Some(Failure::TransientIo))
    );
    assert_eq!(advance(&cfg, Phase::Marking, Outcome::Completed, ID), idle(None));
}

#[test]
fn malformed_rename_is_reported_and_ignored() {
    let cfg = config();
    let event = WatchEvent::FileRenamed(s("/srv/pages/.."), s("/srv/pages/a.html"));
    assert!(is_malformed(&event));
    assert_eq!(on_event(&cfg, event, ID), idle(Some(Failure::MalformedEvent)));
    assert!(!is_malformed(&WatchEvent::FileRenamed(s("/srv/pages/.."), s("/srv/pages/a.txt"))));
    assert!(!is_malformed(&WatchEvent::FileRenamed(s("/a/b.html"), s("/a/c.html"))));
    assert!(!is_malformed(&WatchEvent::FileCreated(s("/srv/pages/.."))));
    assert!(!is_malformed(&WatchEvent::Other(s("rescan"))));
}

#[test]
fn other_events_keep_the_machine_idle() {
    let cfg = config();
    let t = step(&cfg, Phase::Idle, Outcome::Event(WatchEvent::Other(s("watcher error"))));
    assert_eq!(t, idle(None));
}

#[test]
fn unexpected_outcomes_end_in_idle() {
    let cfg = config();
    assert_eq!(
        advance(&cfg, Phase::Idle, Outcome::Completed, ID),
        idle(Some(Failure::Unexpected))
    );
    assert_eq!(advance(&cfg, Phase::Idle, Outcome::Failed, ID), idle(Some(Failure::Unexpected)));
    assert_eq!(
        advance(&cfg, Phase::Marking, Outcome::Rendered(pdf_bytes()), ID),
        idle(Some(Failure::Unexpected))
    );
    assert_eq!(
        advance(
            &cfg,
            Phase::Rendering(staged("/a/x.html", "r.html")),
            Outcome::Event(WatchEvent::FileCreated(s("/a/b.html"))),
            ID
        ),
        idle(Some(Failure::Unexpected))
    );
    assert_eq!(
        advance(
            &cfg,
            Phase::Resolving(staged("/a/x.html", "r.html")),
            Outcome::Completed,
            ID
        ),
        idle(Some(Failure::Unexpected))
    );
}

#[test]
fn claims_only_for_created_html_while_idle() {
    let created = Outcome::Event(WatchEvent::FileCreated(s("/srv/pages/a.html")));
    assert!(claims(&Phase::Idle, &created));
    assert!(!claims(&Phase::Marking, &created));
    assert!(!claims(
        &Phase::Idle,
        &Outcome::Event(WatchEvent::FileCreated(s("/srv/pages/a.txt")))
    ));
    assert!(!claims(
        &Phase::Idle,
        &Outcome::Event(WatchEvent::FileRenamed(s("/a/b.html"), s("/a/c.html")))
    ));
    assert!(!claims(&Phase::Idle, &Outcome::Completed));
}

#[test]
fn step_claims_under_a_fresh_identifier() {
    let cfg = config();
    let t = step(
        &cfg,
        Phase::Idle,
        Outcome::Event(WatchEvent::FileCreated(s("/srv/pages/report.html"))),
    );
    assert_eq!(t.phase, Phase::Claiming);
    assert_eq!(t.failure, None);
    match t.command {
        Command::Claim { from, to } => {
            assert_eq!(from, "/srv/pages/report.html");
            let id = to
                .strip_prefix("pages/")
                .and_then(|rest| rest.strip_suffix(".html"))
                .expect("a staged path in the input directory");
            assert_eq!(id.chars().count(), 36);
            assert!(id.chars().enumerate().all(|(i, c)| {
                if i == 8 || i == 13 || i == 18 || i == 23 {
                    c == '-'
                } else {
                    c.is_ascii_digit() || ('a'..='f').contains(&c)
                }
            }));
        }
        other => panic!("expected a claim, got {:?}", other),
    }
}

#[test]
fn two_steps_claim_under_distinct_names() {
    let cfg = config();
    let a = step(&cfg, Phase::Idle, Outcome::Event(WatchEvent::FileCreated(s("/p/a.html"))));
    let b = step(&cfg, Phase::Idle, Outcome::Event(WatchEvent::FileCreated(s("/p/b.html"))));
    match (a.command, b.command) {
        (Command::Claim { to: to_a, .. }, Command::Claim { to: to_b, .. }) => {
            assert_ne!(to_a, to_b)
        }
        _ => panic!("expected two claims"),
    }
}

#[test]
fn step_agrees_with_advance_where_no_claim_is_made() {
    let cfg = config();
    let phase = Phase::Rendering(staged("/srv/pages/x.html", "a.html"));
    let by_step = step(&cfg, phase.clone(), Outcome::Rendered(pdf_bytes()));
    let by_advance = advance(&cfg, phase, Outcome::Rendered(pdf_bytes()), ID);
    assert_eq!(by_step, by_advance);
    assert_eq!(by_step.command, output("./pdf/a.pdf", pdf_bytes()));
}
