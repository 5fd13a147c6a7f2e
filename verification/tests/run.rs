use rust_media::driver::{start, step, Action, Event, IoStage, RunError, State};
use rust_media::encoder::EncodeJob;
use rust_media::selector::{DirEntry, Listing, SelectError};
use rust_media::timestamp::Timestamp;

fn args(items: &[&str]) -> Vec<String> {
    items.iter().map(|s| s.to_string()).collect()
}

fn dir(name: &str, secs: i64) -> DirEntry {
    DirEntry {
        name: name.to_string(),
        is_dir: true,
        created: Timestamp::new(secs, 0),
        modified: None,
    }
}

fn encoding() -> State {
    State::Encoding { index: 0, job: EncodeJob::plan(30, "render_1") }
}

fn removing() -> State {
    State::Removing { index: 0, job: EncodeJob::plan(30, "render_1") }
}

#[test]
fn start_reads_the_frame_rate_and_asks_for_the_output_dir() {
    let (state, action) = start(&args(&["prog", "24"]));
    assert!(matches!(state, State::CreatingOutputDir { frame_rate: 24 }));
    assert_eq!(action, Action::CreateOutputDir);
    let (state, _) = start(&args(&["prog"]));
    assert!(matches!(state, State::CreatingOutputDir { frame_rate: 30 }));
    let (state, _) = start(&args(&["prog", "abc"]));
    assert!(matches!(state, State::CreatingOutputDir { frame_rate: 30 }));
}

#[test]
fn output_dir_ready_leads_to_listing() {
    let (state, action) = step(State::CreatingOutputDir { frame_rate: 24 }, Event::OutputDirReady);
    assert!(matches!(state, State::ListingRoot { frame_rate: 24 }));
    assert_eq!(action, Action::ListRoot);
}

#[test]
fn output_dir_failure_ends_the_run() {
    let (state, action) = step(State::CreatingOutputDir { frame_rate: 24 }, Event::OutputDirFailed);
    assert!(matches!(state, State::Finished));
    assert_eq!(action, Action::Finish(Err(RunError::Io(IoStage::CreateOutputDir))));
}

#[test]
fn missing_root_ends_the_run_as_not_found() {
    let (state, action) =
        step(State::ListingRoot { frame_rate: 30 }, Event::RootListed(Listing::Missing));
    assert!(matches!(state, State::Finished));
    assert_eq!(action, Action::Finish(Err(RunError::NotFound(SelectError::RootNotFound))));
}

#[test]
fn empty_root_ends_the_run_as_not_found() {
    let (state, action) = step(
        State::ListingRoot { frame_rate: 30 },
        Event::RootListed(Listing::Entries(vec![dir("other", 5)])),
    );
    assert!(matches!(state, State::Finished));
    assert_eq!(action, Action::Finish(Err(RunError::NotFound(SelectError::NoRenderDirs))));
}

#[test]
fn unreadable_root_ends_the_run() {
    let (state, action) = step(State::ListingRoot { frame_rate: 30 }, Event::ListFailed);
    assert!(matches!(state, State::Finished));
    assert_eq!(action, Action::Finish(Err(RunError::Io(IoStage::ListRoot))));
}

#[test]
fn listing_plans_the_job_for_the_newest_directory() {
    let entries = vec![dir("render_a", 10), dir("render_b", 30), dir("render_c", 20)];
    let (state, action) =
        step(State::ListingRoot { frame_rate: 60 }, Event::RootListed(Listing::Entries(entries)));
    assert_eq!(action, Action::RunEncoder);
    assert_eq!(state.source_index(), Some(1));
    let job = state.job().unwrap();
    assert_eq!(job.source_dir, "./image_renders/render_b");
    assert_eq!(job.output_file, "./rendered_videos/render_b.mp4");
    assert_eq!(job.args[2], "60");
    assert_eq!(job.args[4], "./image_renders/render_b/frame_%05d.png");
}

#[test]
fn encoder_success_asks_for_removal_then_finishes() {
    let (state, action) = step(encoding(), Event::EncoderExited { success: true });
    assert_eq!(action, Action::RemoveSource);
    assert!(matches!(state, State::Removing { index: 0, .. }));
    assert_eq!(state.job().unwrap().source_dir, "./image_renders/render_1");
    let (state, action) = step(state, Event::SourceRemoved);
    assert_eq!(action, Action::Finish(Ok(())));
    assert!(matches!(state, State::Finished));
}

#[test]
fn encoder_failure_reports_the_tool_and_asks_for_no_removal() {
    let (state, action) = step(encoding(), Event::EncoderExited { success: false });
    assert_eq!(action, Action::Finish(Err(RunError::ExternalTool)));
    assert!(matches!(state, State::Finished));
    assert!(state.job().is_none());
}

#[test]
fn encoder_that_does_not_start_is_an_io_failure() {
    let (state, action) = step(encoding(), Event::EncoderNotStarted);
    assert_eq!(action, Action::Finish(Err(RunError::Io(IoStage::StartEncoder))));
    assert!(matches!(state, State::Finished));
}

#[test]
fn failed_removal_is_an_io_failure() {
    let (state, action) = step(removing(), Event::RemoveFailed);
    assert_eq!(action, Action::Finish(Err(RunError::Io(IoStage::RemoveSource))));
    assert!(matches!(state, State::Finished));
}

#[test]
fn events_out_of_turn_end_the_run() {
    let (state, action) = step(State::Finished, Event::SourceRemoved);
    assert_eq!(action, Action::Finish(Err(RunError::OutOfTurn)));
    assert!(matches!(state, State::Finished));
    let (_, action) = step(State::CreatingOutputDir { frame_rate: 30 }, Event::SourceRemoved);
    assert_eq!(action, Action::Finish(Err(RunError::OutOfTurn)));
    let (_, action) = step(encoding(), Event::SourceRemoved);
    assert_eq!(action, Action::Finish(Err(RunError::OutOfTurn)));
    let (_, action) = step(removing(), Event::EncoderExited { success: true });
    assert_eq!(action, Action::Finish(Err(RunError::OutOfTurn)));
    let (_, action) = step(State::ListingRoot { frame_rate: 30 }, Event::OutputDirReady);
    assert_eq!(action, Action::Finish(Err(RunError::OutOfTurn)));
}

#[test]
fn state_accessors_are_empty_before_selection() {
    assert!(State::CreatingOutputDir { frame_rate: 1 }.job().is_none());
    assert!(State::ListingRoot { frame_rate: 1 }.source_index().is_none());
    assert!(State::Finished.job().is_none());
    assert_eq!(removing().source_index(), Some(0));
}

#[test]
fn whole_run_on_one_render_directory() {
    let (state, action) = start(&args(&["prog", "24"]));
    assert_eq!(action, Action::CreateOutputDir);
    let (state, action) = step(state, Event::OutputDirReady);
    assert_eq!(action, Action::ListRoot);
    let listing = Listing::Entries(vec![dir("render_20240101_0001", 1_704_067_200)]);
    let (state, action) = step(state, Event::RootListed(listing));
    assert_eq!(action, Action::RunEncoder);
    let job = state.job().unwrap();
    let expected = vec![
        "-y",
        "-framerate",
        "24",
        "-i",
        "./image_renders/render_20240101_0001/frame_%05d.png",
        "-c:v",
        "libx264",
        "-pix_fmt",
        "yuv420p",
        "-preset",
        "medium",
        "-crf",
        "23",
        "./rendered_videos/render_20240101_0001.mp4",
    ];
    assert_eq!(job.args, expected);
    assert_eq!(job.output_file, "./rendered_videos/render_20240101_0001.mp4");
    let (state, action) = step(state, Event::EncoderExited { success: true });
    assert_eq!(action, Action::RemoveSource);
    assert_eq!(state.job().unwrap().source_dir, "./image_renders/render_20240101_0001");
    let (state, action) = step(state, Event::SourceRemoved);
    assert_eq!(action, Action::Finish(Ok(())));
    assert!(matches!(state, State::Finished));
}
