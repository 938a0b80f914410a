use edge_installer::backend::{load_disks, load_images};
use edge_installer::prompt::{resolve_confirm, Delivery, PromptOutcome, PromptSequencer};
use edge_installer::recorder::Recorder;
use edge_installer::select::{select_index, InteractionError};
use edge_installer::session::{
    EnumerationError, PostInstallAction, Session, SessionAction, SessionError, SessionEvent,
};

fn strings(items: &[&str]) -> Vec<String> {
    items.iter().map(|s| s.to_string()).collect()
}

// --- Timed confirmation -------------------------------------------------

#[test]
fn timed_out_confirmation_returns_default() {
    let o = resolve_confirm(0, None, true);
    assert_eq!(o, PromptOutcome::TimedOut(true));
    assert_eq!(o.value(), true);

    let o = resolve_confirm(7, None, false);
    assert_eq!(o, PromptOutcome::TimedOut(false));
    assert_eq!(o.value(), false);
}

#[test]
fn answered_confirmation_returns_answer_not_default() {
    let o = resolve_confirm(3, Some(Delivery { prompt_id: 3, answer: Some(false) }), true);
    assert_eq!(o, PromptOutcome::Answered(false));
    assert_eq!(o.value(), false);

    let o = resolve_confirm(3, Some(Delivery { prompt_id: 3, answer: Some(true) }), false);
    assert_eq!(o, PromptOutcome::Answered(true));
    assert_eq!(o.value(), true);
}

#[test]
fn failed_interaction_resolves_to_default() {
    let o = resolve_confirm(9, Some(Delivery { prompt_id: 9, answer: None }), true);
    assert_eq!(o, PromptOutcome::InteractionFailed(true));
    assert_eq!(o.value(), true);
}

#[test]
fn stale_delivery_never_supplies_the_result() {
    let mut seq = PromptSequencer::new();
    let first = seq.begin();
    // The first prompt is abandoned on timeout; its late answer arrives while
    // the second prompt is in flight.
    let second = seq.begin();
    assert_ne!(first, second);

    let late = Delivery { prompt_id: first, answer: Some(false) };
    let o = resolve_confirm(second, Some(late), true);
    assert_eq!(o, PromptOutcome::TimedOut(true));
    assert_eq!(o.value(), true);
}

#[test]
fn sequencer_hands_out_distinct_ids() {
    let mut seq = PromptSequencer::new();
    let a = seq.begin();
    let b = seq.begin();
    let c = seq.begin();
    assert_eq!(a, 0);
    assert_eq!(b, 1);
    assert_eq!(c, 2);
}

fn runtime() -> tokio::runtime::Runtime {
    tokio::runtime::Builder::new_current_thread()
        .enable_time()
        .build()
        .unwrap()
}

#[test]
fn timed_race_resolves_to_default_within_bound() {
    runtime().block_on(async {
        let mut prompts = PromptSequencer::new();
        let id = prompts.begin();
        // The interaction never answers: the sender stays silent.
        let (tx, rx) = tokio::sync::oneshot::channel::<Delivery>();
        let started = std::time::Instant::now();
        let delivery = match tokio::time::timeout(std::time::Duration::from_millis(50), rx).await {
            Ok(Ok(d)) => Some(d),
            _ => None,
        };
        let elapsed = started.elapsed();
        drop(tx);
        let outcome = resolve_confirm(id, delivery, true);
        assert_eq!(outcome, PromptOutcome::TimedOut(true));
        assert_eq!(outcome.value(), true);
        // The race returns promptly after the deadline, with a bounded grace.
        assert!(elapsed < std::time::Duration::from_secs(5));
    });
}

#[test]
fn answer_arriving_before_deadline_wins_race() {
    runtime().block_on(async {
        let mut prompts = PromptSequencer::new();
        let id = prompts.begin();
        let (tx, rx) = tokio::sync::oneshot::channel::<Delivery>();
        tokio::spawn(async move {
            let _ = tx.send(Delivery { prompt_id: id, answer: Some(false) });
        });
        let delivery = match tokio::time::timeout(std::time::Duration::from_secs(5), rx).await {
            Ok(Ok(d)) => Some(d),
            _ => None,
        };
        let outcome = resolve_confirm(id, delivery, true);
        assert_eq!(outcome, PromptOutcome::Answered(false));
        assert_eq!(outcome.value(), false);
    });
}

#[test]
fn late_answer_from_abandoned_race_cannot_reach_later_prompt() {
    runtime().block_on(async {
        let mut prompts = PromptSequencer::new();
        let first = prompts.begin();
        let (tx1, rx1) = tokio::sync::oneshot::channel::<Delivery>();
        let slow = tokio::spawn(async move {
            tokio::time::sleep(std::time::Duration::from_millis(40)).await;
            match tx1.send(Delivery { prompt_id: first, answer: Some(false) }) {
                Ok(()) => None,
                Err(undelivered) => Some(undelivered),
            }
        });
        let d1 = match tokio::time::timeout(std::time::Duration::from_millis(5), rx1).await {
            Ok(Ok(d)) => Some(d),
            _ => None,
        };
        assert_eq!(resolve_confirm(first, d1, true), PromptOutcome::TimedOut(true));

        // The first prompt's single-use slot is gone, so the late answer
        // comes back undelivered; even presented adversarially to the second
        // prompt's resolution, its identity rules it out.
        let second = prompts.begin();
        let stale = slow.await.unwrap();
        if let Some(stale) = stale {
            let o = resolve_confirm(second, Some(stale), true);
            assert_eq!(o, PromptOutcome::TimedOut(true));
        }

        // The second prompt's own answer still wins its race.
        let own = Delivery { prompt_id: second, answer: Some(false) };
        assert_eq!(resolve_confirm(second, Some(own), true), PromptOutcome::Answered(false));
    });
}

// --- Indexed selection --------------------------------------------------

#[test]
fn select_returns_chosen_index() {
    let options = strings(&["A", "B", "C"]);
    assert_eq!(select_index(&options, 0, Some(1)), Ok(1));
    assert_eq!(select_index(&options, 2, Some(0)), Ok(0));
}

#[test]
fn select_empty_options_fails_fast() {
    let options: Vec<String> = Vec::new();
    assert_eq!(select_index(&options, 0, Some(0)), Err(InteractionError::EmptyOptions));
}

#[test]
fn select_default_out_of_range_fails_fast() {
    let options = strings(&["A", "B", "C"]);
    assert_eq!(select_index(&options, 3, Some(1)), Err(InteractionError::DefaultOutOfRange));
}

#[test]
fn select_layer_failure_is_surfaced() {
    let options = strings(&["A", "B", "C"]);
    assert_eq!(select_index(&options, 0, None), Err(InteractionError::LayerFailure));
}

#[test]
fn select_answer_out_of_range_is_surfaced() {
    let options = strings(&["A", "B", "C"]);
    assert_eq!(select_index(&options, 0, Some(3)), Err(InteractionError::AnswerOutOfRange));
}

// --- Installation session -----------------------------------------------

#[test]
fn session_defaults_path_installs_first_entries() {
    // Both confirmations time out with default = true.
    let disks = strings(&["d1", "d2"]);
    let images = strings(&["i1", "i2"]);
    let mut session = Session::new(disks, images, false).unwrap();
    assert_eq!(session.initial_action(), SessionAction::AskDefaults);

    let use_defaults = resolve_confirm(0, None, true).value();
    assert_eq!(use_defaults, true);
    let action = session.step(SessionEvent::DefaultsDecided(use_defaults)).unwrap();
    assert_eq!(action, SessionAction::RunInstall);

    let choice = session.finalized_choice();
    assert_eq!(choice.disk, "d1");
    assert_eq!(choice.image, "i1");

    let action = session.step(SessionEvent::InstallSucceeded).unwrap();
    assert_eq!(action, SessionAction::AskShutdown);

    let shutdown = resolve_confirm(1, None, true).value();
    let action = session.step(SessionEvent::ShutdownDecided(shutdown)).unwrap();
    assert_eq!(action, SessionAction::Terminate(true));
}

#[test]
fn session_custom_selection_path() {
    // The user declines the defaults, picks disk 1 and image 0.
    let disks = strings(&["d1", "d2"]);
    let images = strings(&["i1", "i2"]);
    let mut session = Session::new(disks, images, false).unwrap();

    let action = session.step(SessionEvent::DefaultsDecided(false)).unwrap();
    assert_eq!(action, SessionAction::AskDisk);

    let disk_index = select_index(&session.disks, 0, Some(1)).unwrap();
    let action = session.step(SessionEvent::DiskChosen(disk_index)).unwrap();
    assert_eq!(action, SessionAction::AskImage);

    let image_index = select_index(&session.images, 0, Some(0)).unwrap();
    let action = session.step(SessionEvent::ImageChosen(image_index)).unwrap();
    assert_eq!(action, SessionAction::RunInstall);

    let choice = session.finalized_choice();
    assert_eq!(choice.disk, "d2");
    assert_eq!(choice.image, "i1");
}

#[test]
fn session_refuses_empty_disk_list_before_any_prompt() {
    let disks: Vec<String> = Vec::new();
    let images = strings(&["i1"]);
    assert_eq!(Session::new(disks, images, false).unwrap_err(), EnumerationError::NoDisks);
}

#[test]
fn session_refuses_empty_image_list_before_any_prompt() {
    let disks = strings(&["d1"]);
    let images: Vec<String> = Vec::new();
    assert_eq!(Session::new(disks, images, false).unwrap_err(), EnumerationError::NoImages);
}

#[test]
fn session_aborts_on_selection_failure() {
    let mut session = Session::new(strings(&["d1"]), strings(&["i1"]), false).unwrap();
    session.step(SessionEvent::DefaultsDecided(false)).unwrap();
    let err = session.step(SessionEvent::SelectionFailed).unwrap_err();
    assert_eq!(err, SessionError::Interaction);
}

#[test]
fn session_aborts_on_install_failure() {
    let mut session = Session::new(strings(&["d1"]), strings(&["i1"]), false).unwrap();
    session.step(SessionEvent::DefaultsDecided(true)).unwrap();
    let err = session.step(SessionEvent::InstallFailed).unwrap_err();
    assert_eq!(err, SessionError::InstallFailed);
}

#[test]
fn reconfigurable_session_reenters_disk_choice() {
    let disks = strings(&["d1", "d2"]);
    let images = strings(&["i1", "i2"]);
    let mut session = Session::new(disks, images, true).unwrap();

    session.step(SessionEvent::DefaultsDecided(true)).unwrap();
    let action = session.step(SessionEvent::InstallSucceeded).unwrap();
    assert_eq!(action, SessionAction::AwaitReconfigureWindow);

    // The reserved keypress arrives during the window: back to disk choice.
    let action = session.step(SessionEvent::ReconfigureRequested).unwrap();
    assert_eq!(action, SessionAction::AskDisk);

    let action = session.step(SessionEvent::DiskChosen(1)).unwrap();
    assert_eq!(action, SessionAction::AskImage);
    let action = session.step(SessionEvent::ImageChosen(1)).unwrap();
    assert_eq!(action, SessionAction::RunInstall);

    let choice = session.finalized_choice();
    assert_eq!(choice.disk, "d2");
    assert_eq!(choice.image, "i2");

    // This time the window elapses and the three-way choice ends the loop.
    let action = session.step(SessionEvent::InstallSucceeded).unwrap();
    assert_eq!(action, SessionAction::AwaitReconfigureWindow);
    let action = session.step(SessionEvent::WindowElapsed).unwrap();
    assert_eq!(action, SessionAction::AskPostAction);
    let action = session
        .step(SessionEvent::PostActionChosen(PostInstallAction::Shutdown))
        .unwrap();
    assert_eq!(action, SessionAction::Terminate(true));
}

#[test]
fn reconfigurable_session_post_action_other_than_shutdown() {
    let mut session = Session::new(strings(&["d1"]), strings(&["i1"]), true).unwrap();
    session.step(SessionEvent::DefaultsDecided(true)).unwrap();
    session.step(SessionEvent::InstallSucceeded).unwrap();
    session.step(SessionEvent::WindowElapsed).unwrap();
    let action = session
        .step(SessionEvent::PostActionChosen(PostInstallAction::Restart))
        .unwrap();
    assert_eq!(action, SessionAction::Terminate(false));
}

// --- Option source ------------------------------------------------------

#[test]
fn load_disks_offers_three_sample_disks() {
    let disks = load_disks().unwrap();
    assert_eq!(disks, strings(&["/dev/sda", "/dev/sdb", "/dev/sdc"]));
}

#[test]
fn load_images_offers_three_images() {
    let images = load_images();
    assert_eq!(images, strings(&["Ubuntu 20.04", "Fedora 34", "Arch Linux"]));
}

// --- Result recorder ----------------------------------------------------

#[test]
fn recording_twice_keeps_a_single_latest_record() {
    let mut recorder = Recorder::new();
    assert!(recorder.entry.is_none());

    let disk = "d1".to_string();
    let image = "i1".to_string();
    recorder.record(&disk, &image);
    let first = recorder.entry.clone().unwrap();
    recorder.record(&disk, &image);
    let second = recorder.entry.clone().unwrap();

    // Overwrite semantics: the record equals what a single call left, with
    // no accumulation of duplicate entries.
    assert_eq!(first, second);
    assert_eq!(second.disk, "d1");
    assert_eq!(second.image, "i1");
}

#[test]
fn recording_overwrites_an_earlier_different_record() {
    let mut recorder = Recorder::new();
    recorder.record(&"d1".to_string(), &"i1".to_string());
    recorder.record(&"d2".to_string(), &"i2".to_string());
    let entry = recorder.entry.clone().unwrap();
    assert_eq!(entry.disk, "d2");
    assert_eq!(entry.image, "i2");
}
