use instagram_dl::data::Dimensions;
use instagram_dl::data::EdgeMediaToCaption;
use instagram_dl::data::Image;
use instagram_dl::pipeline::DownloadPipeline;
use instagram_dl::pipeline::DownloadPolicy;
use instagram_dl::pipeline::PipelineAction;
use instagram_dl::util::download_image;
use instagram_dl::util::DownloadStatus;
use instagram_dl::util::DownloadStep;
use instagram_dl::util::Transfer;

fn picture(shortcode: &str) -> Image {
    Image::new(
        shortcode.to_string(),
        Dimensions::new(640, 480),
        format!("https://cdn.example.com/{}.jpg", shortcode),
        EdgeMediaToCaption::new(Vec::new()),
    )
}

fn expect_transfer(step: DownloadStep) -> Transfer {
    match step {
        DownloadStep::Transfer(transfer) => transfer,
        other => panic!("expected a transfer, got {:?}", other),
    }
}

#[test]
fn file_name_is_shortcode_and_extension() {
    assert_eq!(picture("CAbc_123").file_name(), "CAbc_123.jpg");
    assert_eq!(picture("").file_name(), ".jpg");
}

#[test]
fn present_file_is_skipped_without_a_transfer() {
    match download_image(&picture("abc"), true, false) {
        DownloadStep::Finished(status) => assert_eq!(status, DownloadStatus::AlreadyExists),
        other => panic!("expected a finished download, got {:?}", other),
    }
}

#[test]
fn forced_download_replaces_the_file() {
    let transfer = expect_transfer(download_image(&picture("abc"), true, true));
    assert_eq!(transfer.file_name, "abc.jpg");
    assert_eq!(transfer.url, "https://cdn.example.com/abc.jpg");
    assert!(transfer.replaces);
    assert_eq!(transfer.finish(Ok(())), Ok(DownloadStatus::ForceDownloaded));
}

#[test]
fn missing_file_is_downloaded() {
    for force in [false, true] {
        let transfer = expect_transfer(download_image(&picture("abc"), false, force));
        assert_eq!(transfer.file_name, "abc.jpg");
        assert_eq!(transfer.url, "https://cdn.example.com/abc.jpg");
        assert!(!transfer.replaces);
        assert_eq!(transfer.finish(Ok(())), Ok(DownloadStatus::Downloaded));
    }
}

#[test]
fn failed_transfer_fails_the_download_with_its_reason() {
    let fresh = expect_transfer(download_image(&picture("abc"), false, false));
    assert_eq!(fresh.finish(Err("connection refused".to_string())), Err("connection refused".to_string()));
    let forced = expect_transfer(download_image(&picture("abc"), true, true));
    assert_eq!(forced.finish(Err("disk full".to_string())), Err("disk full".to_string()));
}

#[test]
fn status_labels_are_aligned() {
    assert_eq!(DownloadStatus::Downloaded.label(), "Downloaded:     ");
    assert_eq!(DownloadStatus::ForceDownloaded.label(), "Re-downloaded:  ");
    assert_eq!(DownloadStatus::AlreadyExists.label(), "Already Exists: ");
}

#[test]
fn pipeline_keeps_its_policy() {
    let pipeline = DownloadPipeline::new(DownloadPolicy { force: true, max_concurrency: 4 });
    assert_eq!(pipeline.policy(), DownloadPolicy { force: true, max_concurrency: 4 });
    assert_eq!(pipeline.in_flight(), 0);
    assert!(!pipeline.is_drained());
}

/// Runs `items` downloads through a pipeline of the given limit. The download
/// whose number is in `failing` fails; a download ends only when no other
/// step is possible, so that the pipeline is as full as it can get.
fn run(limit: usize, items: usize, failing: Option<usize>) -> (usize, Vec<Result<DownloadStatus, String>>) {
    let mut pipeline = DownloadPipeline::new(DownloadPolicy { force: false, max_concurrency: limit });
    let mut pulled: usize = 0;
    let mut running: Vec<usize> = Vec::new();
    let mut outcomes: Vec<Result<DownloadStatus, String>> = Vec::new();
    let mut most_in_flight: usize = 0;
    loop {
        assert_eq!(pipeline.in_flight(), running.len());
        assert!(pipeline.in_flight() <= limit);
        most_in_flight = most_in_flight.max(pipeline.in_flight());
        match pipeline.next_action() {
            PipelineAction::Pull => {
                if pulled < items {
                    running.push(pulled);
                    pulled += 1;
                    pipeline.started();
                } else {
                    pipeline.source_ended();
                    assert!(pipeline.is_drained());
                }
            }
            PipelineAction::Wait => {
                let item = running.remove(0);
                let force = pipeline.policy().force;
                let transfer = expect_transfer(download_image(&picture(&item.to_string()), false, force));
                let outcome = if failing == Some(item) {
                    transfer.finish(Err(format!("item {} is unreachable", item)))
                } else {
                    transfer.finish(Ok(()))
                };
                pipeline.completed(&outcome);
                outcomes.push(outcome);
            }
            PipelineAction::Finish => break,
            PipelineAction::Stalled => panic!("a pipeline with a limit above zero stalled"),
        }
    }
    assert_eq!(pipeline.in_flight(), 0);
    (most_in_flight, outcomes)
}

#[test]
fn in_flight_downloads_never_exceed_the_limit() {
    let (most, outcomes) = run(3, 10, None);
    assert_eq!(most, 3);
    assert_eq!(outcomes.len(), 10);
    assert!(outcomes.iter().all(|o| *o == Ok(DownloadStatus::Downloaded)));
}

#[test]
fn fewer_items_than_places_all_run_at_once() {
    let (most, outcomes) = run(16, 5, None);
    assert_eq!(most, 5);
    assert_eq!(outcomes.len(), 5);
}

#[test]
fn limit_of_one_runs_downloads_one_by_one() {
    let (most, outcomes) = run(1, 4, None);
    assert_eq!(most, 1);
    assert_eq!(outcomes.len(), 4);
}

#[test]
fn an_empty_stream_finishes_at_once() {
    let (most, outcomes) = run(3, 0, None);
    assert_eq!(most, 0);
    assert!(outcomes.is_empty());
}

#[test]
fn one_failure_leaves_the_other_downloads_alone() {
    let (most, outcomes) = run(3, 10, Some(4));
    assert_eq!(most, 3);
    assert_eq!(outcomes.len(), 10);
    for (item, outcome) in outcomes.iter().enumerate() {
        if item == 4 {
            assert_eq!(*outcome, Err("item 4 is unreachable".to_string()));
        } else {
            assert_eq!(*outcome, Ok(DownloadStatus::Downloaded));
        }
    }
}

#[test]
fn a_limit_of_zero_stalls() {
    let pipeline = DownloadPipeline::new(DownloadPolicy { force: false, max_concurrency: 0 });
    assert_eq!(pipeline.next_action(), PipelineAction::Stalled);
    assert_eq!(pipeline.in_flight(), 0);
    assert!(!pipeline.is_drained());
}

#[test]
fn a_full_pipeline_waits_and_a_free_place_pulls() {
    let mut pipeline = DownloadPipeline::new(DownloadPolicy { force: false, max_concurrency: 2 });
    assert_eq!(pipeline.next_action(), PipelineAction::Pull);
    pipeline.started();
    assert_eq!(pipeline.next_action(), PipelineAction::Pull);
    pipeline.started();
    assert_eq!(pipeline.next_action(), PipelineAction::Wait);
    pipeline.completed(&Err("timeout".to_string()));
    assert_eq!(pipeline.in_flight(), 1);
    assert_eq!(pipeline.next_action(), PipelineAction::Pull);
    pipeline.source_ended();
    assert_eq!(pipeline.next_action(), PipelineAction::Wait);
    pipeline.completed(&Ok(DownloadStatus::AlreadyExists));
    assert_eq!(pipeline.next_action(), PipelineAction::Finish);
}
