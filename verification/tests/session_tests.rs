//! Tests of the stream session state machine: frame counts, order, budget
//! clamping, and the concrete streaming scenarios.

use mock_openai::corpus::Corpus;
use mock_openai::stream::{render_frame, Frame, StreamSession};
use mock_openai::template::{render_sse_chunk, render_sse_done, render_sse_finish, render_sse_usage};

fn sonnet_corpus() -> Corpus {
    Corpus::new(vec![
        String::from("Shall"),
        String::from(" I"),
        String::from(" compare"),
        String::from(" thee"),
    ])
}

fn deltas_finishes_usages_dones(frames: &[Frame]) -> (usize, usize, usize, usize) {
    let mut counts = (0, 0, 0, 0);
    for f in frames {
        match f {
            Frame::Delta(_) => counts.0 += 1,
            Frame::Finish(_) => counts.1 += 1,
            Frame::Usage(_, _) => counts.2 += 1,
            Frame::Done => counts.3 += 1,
        }
    }
    counts
}

#[test]
fn streaming_scenario_budget_three_with_usage() {
    let corpus = sonnet_corpus();
    let mut session = StreamSession::new(&corpus, Some(3), true);
    let frames = session.collect_frames();
    assert_eq!(
        frames,
        vec![
            Frame::Delta(String::from("Shall")),
            Frame::Delta(String::from(" I")),
            Frame::Finish(String::from(" compare")),
            Frame::Usage(3, 3),
            Frame::Done,
        ]
    );
}

#[test]
fn budget_two_without_usage() {
    let corpus = sonnet_corpus();
    let mut session = StreamSession::new(&corpus, Some(2), false);
    let frames = session.collect_frames();
    assert_eq!(
        frames,
        vec![
            Frame::Delta(String::from("Shall")),
            Frame::Finish(String::from(" I")),
            Frame::Done,
        ]
    );
    let (d, f, u, done) = deltas_finishes_usages_dones(&frames);
    assert_eq!((d, f, u, done), (1, 1, 0, 1));
}

#[test]
fn budget_one_emits_no_deltas_and_finish_before_usage_and_done() {
    let corpus = sonnet_corpus();
    let mut session = StreamSession::new(&corpus, Some(1), true);
    let frames = session.collect_frames();
    assert_eq!(
        frames,
        vec![
            Frame::Finish(String::from("Shall")),
            Frame::Usage(1, 1),
            Frame::Done,
        ]
    );
}

#[test]
fn absent_budget_takes_whole_corpus() {
    let corpus = sonnet_corpus();
    let mut session = StreamSession::new(&corpus, None, false);
    let frames = session.collect_frames();
    assert_eq!(
        frames,
        vec![
            Frame::Delta(String::from("Shall")),
            Frame::Delta(String::from(" I")),
            Frame::Delta(String::from(" compare")),
            Frame::Finish(String::from(" thee")),
            Frame::Done,
        ]
    );
}

#[test]
fn oversized_budget_is_clamped_to_corpus_size() {
    let corpus = sonnet_corpus();
    let mut session = StreamSession::new(&corpus, Some(100), true);
    let frames = session.collect_frames();
    let (d, f, u, done) = deltas_finishes_usages_dones(&frames);
    assert_eq!((d, f, u, done), (3, 1, 1, 1));
    assert_eq!(frames[4], Frame::Usage(4, 4));
    assert_eq!(frames[5], Frame::Done);
}

#[test]
fn zero_budget_is_clamped_to_one() {
    let corpus = sonnet_corpus();
    let mut session = StreamSession::new(&corpus, Some(0), false);
    let frames = session.collect_frames();
    assert_eq!(
        frames,
        vec![Frame::Finish(String::from("Shall")), Frame::Done]
    );
}

#[test]
fn empty_corpus_finishes_with_empty_content() {
    let corpus = Corpus::new(Vec::new());
    let mut session = StreamSession::new(&corpus, Some(5), true);
    let frames = session.collect_frames();
    assert_eq!(
        frames,
        vec![
            Frame::Finish(String::new()),
            Frame::Usage(0, 0),
            Frame::Done,
        ]
    );
}

#[test]
fn frame_order_is_fixed_per_step() {
    let corpus = sonnet_corpus();
    let mut session = StreamSession::new(&corpus, Some(2), false);
    assert!(!session.is_completed());
    assert_eq!(session.next_frame(), Some(Frame::Delta(String::from("Shall"))));
    assert_eq!(session.next_frame(), Some(Frame::Finish(String::from(" I"))));
    // the usage step emits nothing when usage was not requested
    assert_eq!(session.next_frame(), None);
    assert!(!session.is_completed());
    assert_eq!(session.next_frame(), Some(Frame::Done));
    assert!(session.is_completed());
    // a completed session never emits again
    assert_eq!(session.next_frame(), None);
    assert_eq!(session.next_frame(), None);
    assert!(session.is_completed());
}

#[test]
fn cancelled_session_emits_nothing_further() {
    let corpus = sonnet_corpus();
    let mut session = StreamSession::new(&corpus, None, true);
    let mut emitted: Vec<Frame> = Vec::new();
    for _ in 0..2 {
        if let Some(f) = session.next_frame() {
            emitted.push(f);
        }
    }
    // the consuming task tears the session down here; nothing was emitted
    // beyond the frames taken before the cancellation point
    drop(session);
    assert_eq!(
        emitted,
        vec![
            Frame::Delta(String::from("Shall")),
            Frame::Delta(String::from(" I")),
        ]
    );
}

#[test]
fn frames_render_to_their_exact_wire_text() {
    assert_eq!(
        render_frame(&Frame::Delta(String::from("Hi"))),
        render_sse_chunk("Hi")
    );
    assert_eq!(
        render_frame(&Frame::Finish(String::from(""))),
        render_sse_finish("")
    );
    assert_eq!(render_frame(&Frame::Usage(7, 7)), render_sse_usage(7, 7));
    assert_eq!(render_frame(&Frame::Done), render_sse_done());
}

#[test]
fn streamed_wire_text_scenario() {
    let corpus = sonnet_corpus();
    let mut session = StreamSession::new(&corpus, Some(3), true);
    let frames = session.collect_frames();
    let wire: Vec<String> = frames.iter().map(render_frame).collect();
    assert!(wire[0].contains("\"content\":\"Shall\""));
    assert!(wire[0].contains("\"finish_reason\":null"));
    assert!(wire[2].contains("\"content\":\" compare\""));
    assert!(wire[2].contains("\"finish_reason\":\"length\""));
    assert!(wire[3].contains("\"completion_tokens\":3"));
    assert_eq!(wire[4], "[DONE]");
}
