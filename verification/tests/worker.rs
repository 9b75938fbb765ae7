use hevc_player::frame::Picture;
use hevc_player::sei::encode_sei_message;
use hevc_player::worker::{VideoCommand, Worker, WorkerAction, WorkerState};

fn open(path: &str) -> Option<VideoCommand> {
    Some(VideoCommand::Open(path.to_string()))
}

fn playing_worker() -> Worker<Vec<u32>> {
    let mut worker = Worker::new();
    assert_eq!(worker.step(open("a.hevc")), WorkerAction::OpenStream("a.hevc".to_string()));
    worker.install_session(vec![1, 2, 3], 0, "stream a".to_string());
    worker
}

fn assert_idle(worker: &Worker<Vec<u32>>) {
    assert_eq!(worker.state(), WorkerState::Idle);
    assert!(!worker.is_active());
    assert!(!worker.is_playing());
}

#[test]
fn new_worker_is_idle() {
    let mut worker: Worker<Vec<u32>> = Worker::new();
    assert_idle(&worker);
    assert_eq!(worker.description_text(), "No file loaded");
    assert!(worker.backend_mut().is_none());
    assert_eq!(worker.step(None), WorkerAction::Wait);
    assert_idle(&worker);
}

#[test]
fn idle_worker_ignores_play_pause_and_stop() {
    let mut worker: Worker<Vec<u32>> = Worker::new();
    for _ in 0..3 {
        assert_eq!(worker.step(Some(VideoCommand::Play)), WorkerAction::Wait);
        assert_idle(&worker);
        assert_eq!(worker.step(Some(VideoCommand::Pause)), WorkerAction::Wait);
        assert_idle(&worker);
        assert_eq!(worker.step(Some(VideoCommand::Stop)), WorkerAction::Wait);
        assert_idle(&worker);
        assert_eq!(worker.description_text(), "No file loaded");
        assert!(worker.backend_mut().is_none());
    }
}

#[test]
fn open_asks_the_driver_for_the_stream() {
    let mut worker: Worker<Vec<u32>> = Worker::new();
    assert_eq!(worker.step(open("a.hevc")), WorkerAction::OpenStream("a.hevc".to_string()));
    assert_idle(&worker);
    assert_eq!(worker.description_text(), "No file loaded");
}

#[test]
fn installed_session_is_played() {
    let mut worker = playing_worker();
    assert_eq!(worker.state(), WorkerState::ActivePlaying);
    assert!(worker.is_active());
    assert!(worker.is_playing());
    assert_eq!(worker.description_text(), "stream a");
    assert_eq!(worker.backend_mut(), Some(&mut vec![1, 2, 3]));
    assert_eq!(worker.step(None), WorkerAction::PullUnit);
    assert_eq!(worker.step(None), WorkerAction::PullUnit);
}

#[test]
fn pause_and_play_switch_pulling_off_and_on() {
    let mut worker = playing_worker();
    assert_eq!(worker.step(Some(VideoCommand::Pause)), WorkerAction::Wait);
    assert_eq!(worker.state(), WorkerState::ActivePaused);
    assert!(worker.is_active());
    assert!(!worker.is_playing());
    assert_eq!(worker.step(None), WorkerAction::Wait);
    assert_eq!(worker.step(Some(VideoCommand::Pause)), WorkerAction::Wait);
    assert_eq!(worker.step(Some(VideoCommand::Play)), WorkerAction::PullUnit);
    assert_eq!(worker.state(), WorkerState::ActivePlaying);
    assert!(worker.is_playing());
    assert_eq!(worker.step(Some(VideoCommand::Play)), WorkerAction::PullUnit);
    assert_eq!(worker.backend_mut(), Some(&mut vec![1, 2, 3]));
    assert_eq!(worker.description_text(), "stream a");
}

#[test]
fn stop_returns_to_idle_and_drops_the_session() {
    let mut worker = playing_worker();
    assert_eq!(worker.step(Some(VideoCommand::Stop)), WorkerAction::Wait);
    assert_idle(&worker);
    assert!(worker.backend_mut().is_none());
    assert_eq!(worker.description_text(), "No file loaded");
    assert!(!worker.selects(0));
}

#[test]
fn stop_from_paused_returns_to_idle() {
    let mut worker = playing_worker();
    worker.step(Some(VideoCommand::Pause));
    assert_eq!(worker.step(Some(VideoCommand::Stop)), WorkerAction::Wait);
    assert_idle(&worker);
    assert_eq!(worker.step(Some(VideoCommand::Play)), WorkerAction::Wait);
    assert_idle(&worker);
}

#[test]
fn repeated_stop_changes_nothing_more() {
    let mut worker = playing_worker();
    for _ in 0..4 {
        assert_eq!(worker.step(Some(VideoCommand::Stop)), WorkerAction::Wait);
        assert_idle(&worker);
        assert!(worker.backend_mut().is_none());
        assert_eq!(worker.description_text(), "No file loaded");
    }
}

#[test]
fn open_keeps_the_session_until_the_new_one_is_installed() {
    let mut worker = playing_worker();
    worker.step(Some(VideoCommand::Pause));
    assert_eq!(worker.step(open("b.hevc")), WorkerAction::OpenStream("b.hevc".to_string()));
    assert_eq!(worker.backend_mut(), Some(&mut vec![1, 2, 3]));
    assert!(!worker.is_playing());
    worker.install_session(vec![9], 2, "stream b".to_string());
    assert!(worker.is_playing());
    assert_eq!(worker.backend_mut(), Some(&mut vec![9]));
    assert_eq!(worker.description_text(), "stream b");
    assert!(worker.selects(2));
    assert!(!worker.selects(0));
}

#[test]
fn failed_open_leaves_no_session() {
    let mut worker = playing_worker();
    assert_eq!(worker.step(open("gone.hevc")), WorkerAction::OpenStream("gone.hevc".to_string()));
    worker.open_failed("cannot open gone.hevc".to_string());
    assert_idle(&worker);
    assert!(worker.backend_mut().is_none());
    assert_eq!(worker.description_text(), "cannot open gone.hevc");
    assert_eq!(worker.step(None), WorkerAction::Wait);
    assert_eq!(worker.step(Some(VideoCommand::Play)), WorkerAction::Wait);
    assert_eq!(worker.step(Some(VideoCommand::Stop)), WorkerAction::Wait);
    assert_eq!(worker.description_text(), "No file loaded");
}

#[test]
fn driver_may_change_its_handles_and_nothing_else() {
    let mut worker = playing_worker();
    worker.backend_mut().unwrap().push(4);
    assert_eq!(worker.backend_mut(), Some(&mut vec![1, 2, 3, 4]));
    assert!(worker.is_playing());
    assert!(worker.selects(0));
    assert_eq!(worker.description_text(), "stream a");
}

#[test]
fn only_units_of_the_selected_stream_are_taken() {
    let mut worker: Worker<Vec<u32>> = Worker::new();
    assert!(!worker.selects(0));
    assert_eq!(worker.unit_text(0, &Vec::new()), None);
    worker.install_session(Vec::new(), 3, "s".to_string());
    assert!(worker.selects(3));
    assert!(!worker.selects(0));
    assert!(!worker.selects(4));
    assert_eq!(worker.unit_text(3, &Vec::new()), Some("No SEI data".to_string()));
    assert_eq!(worker.unit_text(2, &Vec::new()), None);
}

#[test]
fn unit_text_prints_the_records_of_the_side_data() {
    let worker = playing_worker();
    let mut payload = vec![0u8; 16];
    payload.extend_from_slice(br#"{"frame":12}"#);
    let mut buffer = Vec::new();
    encode_sei_message(5, &payload, &mut buffer);
    let mut other = Vec::new();
    encode_sei_message(1, &[1, 2], &mut other);
    let side_data = vec![other, buffer];
    assert_eq!(
        worker.unit_text(0, &side_data),
        Some("[\n  {\n    \"frame\": 12\n  }\n]".to_string())
    );
    assert_eq!(worker.unit_text(1, &side_data), None);
}

#[test]
fn frame_carries_picture_description_and_metadata() {
    let worker = playing_worker();
    let picture = Picture::new(1, 2, vec![1, 2, 3, 4, 5, 6, 7, 8]).unwrap();
    let frame = worker.frame(picture, "[]".to_string());
    assert_eq!(frame.image, Picture::new(1, 2, vec![1, 2, 3, 4, 5, 6, 7, 8]).unwrap());
    assert_eq!(frame.metadata, "stream a");
    assert_eq!(frame.sei_data, "[]");
}
