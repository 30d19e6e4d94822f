use music_player::playback::{AudioPlayer, SinkOutcome};
use music_player::producer::{
    join_step, soft_capacity_of, DecodeEvent, DecodeFailure, JoinStep, Producer, ProducerAction,
    StreamFormat,
};
use std::path::PathBuf;

const STEREO: StreamFormat = StreamFormat { sample_rate: 44_100, channels: 2 };

fn unit_gain(sample: f32, _volume: u32) -> f32 {
    sample
}

fn session() -> AudioPlayer<f32> {
    let mut player: AudioPlayer<f32> = AudioPlayer::new();
    player.play_song(Some(PathBuf::from("track.mp3")), 0);
    player
}

#[test]
fn soft_capacity_is_the_lookahead_less_the_headroom_plus_one() {
    assert_eq!(soft_capacity_of(STEREO), 174_353);
    assert_eq!(soft_capacity_of(StreamFormat { sample_rate: 48_000, channels: 1 }), 94_977);
    assert_eq!(soft_capacity_of(StreamFormat { sample_rate: 512, channels: 6 }), 1);
    assert_eq!(soft_capacity_of(StreamFormat { sample_rate: 513, channels: 6 }), 13);
}

#[test]
fn soft_capacity_is_one_where_the_headroom_exceeds_the_lookahead() {
    assert_eq!(soft_capacity_of(StreamFormat { sample_rate: 100, channels: 2 }), 1);
    assert_eq!(soft_capacity_of(StreamFormat { sample_rate: 0, channels: 2 }), 1);
    assert_eq!(soft_capacity_of(StreamFormat { sample_rate: 44_100, channels: 0 }), 1);
}

#[test]
fn soft_capacity_fits_for_the_largest_format() {
    let format = StreamFormat { sample_rate: u32::MAX, channels: u16::MAX };
    assert_eq!(soft_capacity_of(format), 562_941_296_247_811);
}

#[test]
fn the_stop_signal_ends_the_producer() {
    let mut player = session();
    let producer = Producer::start(&mut player, STEREO, 0, &[0.5, 0.5]);
    player.stop();
    assert_eq!(producer.next_action(&mut player, false), ProducerAction::Exit);
    assert!(!player.is_playing());
}

#[test]
fn the_exit_signal_ends_the_producer() {
    let mut player = session();
    let producer = Producer::start(&mut player, STEREO, 0, &[0.5, 0.5]);
    assert_eq!(producer.next_action(&mut player, true), ProducerAction::Exit);
    assert!(!player.is_playing());
    assert_eq!(player.queued_samples(), 2);
}

#[test]
fn a_paused_session_makes_the_producer_wait() {
    let mut player = session();
    let producer = Producer::start(&mut player, STEREO, 0, &[0.5, 0.5]);
    player.toggle_pause(0);
    assert_eq!(producer.next_action(&mut player, false), ProducerAction::Wait(10));
    assert!(player.is_playing());
    player.toggle_pause(0);
    assert_eq!(producer.next_action(&mut player, false), ProducerAction::Decode);
}

#[test]
fn the_stop_signal_beats_the_pause() {
    let mut player = session();
    let producer = Producer::start(&mut player, STEREO, 0, &[0.5]);
    player.stop();
    player.toggle_pause(0);
    assert_eq!(producer.next_action(&mut player, false), ProducerAction::Exit);
}

#[test]
fn a_full_queue_makes_the_producer_wait() {
    let format = StreamFormat { sample_rate: 514, channels: 1 };
    assert_eq!(soft_capacity_of(format), 5);
    let mut player = session();
    let producer = Producer::start(&mut player, format, 0, &[0.0; 4]);
    assert_eq!(producer.next_action(&mut player, false), ProducerAction::Decode);
    player.enqueue(&[0.0]);
    assert_eq!(producer.next_action(&mut player, false), ProducerAction::Wait(10));
    player.enqueue(&[0.0; 10]);
    assert_eq!(producer.next_action(&mut player, false), ProducerAction::Wait(10));
    let mut dest = [0.0f32; 11];
    player.render(&mut dest, 0.0, unit_gain);
    assert_eq!(producer.next_action(&mut player, false), ProducerAction::Decode);
}

#[test]
fn an_exhausted_source_waits_for_the_queue_to_play_out() {
    let mut player = session();
    let mut producer = Producer::start(&mut player, STEREO, 0, &[0.5, 0.5]);
    producer.absorb(&mut player, DecodeEvent::SourceEnded);
    assert_eq!(producer.next_action(&mut player, false), ProducerAction::Wait(100));
    assert!(player.is_playing());
    let mut dest = [0.0f32; 2];
    assert_eq!(player.render(&mut dest, 0.0, unit_gain), SinkOutcome::Played);
    assert_eq!(producer.next_action(&mut player, false), ProducerAction::Exit);
    assert!(!player.is_playing());
}

#[test]
fn an_exhausted_source_with_a_full_queue_waits_the_short_interval() {
    let format = StreamFormat { sample_rate: 512, channels: 1 };
    let mut player = session();
    let mut producer = Producer::start(&mut player, format, 0, &[0.5]);
    producer.absorb(&mut player, DecodeEvent::SourceEnded);
    assert_eq!(producer.next_action(&mut player, false), ProducerAction::Wait(10));
}

#[test]
fn only_packets_of_the_playing_track_are_accepted() {
    let mut player = session();
    let producer = Producer::start(&mut player, STEREO, 3, &[0.1]);
    assert!(producer.accepts(3));
    assert!(!producer.accepts(0));
    assert!(!producer.accepts(4));
    assert!(!producer.accepts(u32::MAX));
}

#[test]
fn a_block_is_queued_behind_what_is_there() {
    let mut player = session();
    let mut producer = Producer::start(&mut player, STEREO, 0, &[0.1, 0.2]);
    producer.absorb(&mut player, DecodeEvent::Block(vec![0.3, 0.4, 0.5]));
    assert_eq!(player.queued_samples(), 5);
    let mut dest = [0.0f32; 5];
    player.render(&mut dest, 0.0, unit_gain);
    assert_eq!(dest, [0.1, 0.2, 0.3, 0.4, 0.5]);
    assert_eq!(producer.next_action(&mut player, false), ProducerAction::Decode);
}

#[test]
fn a_packet_of_another_track_is_passed_over() {
    let mut player = session();
    let mut producer = Producer::start(&mut player, STEREO, 0, &[0.1]);
    producer.absorb(&mut player, DecodeEvent::ForeignPacket);
    assert_eq!(player.queued_samples(), 1);
    assert_eq!(producer.next_action(&mut player, false), ProducerAction::Decode);
}

#[test]
fn a_malformed_packet_is_skipped() {
    let mut player = session();
    let mut producer = Producer::start(&mut player, STEREO, 0, &[0.1]);
    producer.absorb(&mut player, DecodeEvent::Failed(DecodeFailure::Malformed));
    assert_eq!(player.queued_samples(), 1);
    assert_eq!(producer.next_action(&mut player, false), ProducerAction::Decode);
}

#[test]
fn any_other_failure_exhausts_the_source() {
    for failure in [
        DecodeFailure::Io,
        DecodeFailure::Seek,
        DecodeFailure::Unsupported,
        DecodeFailure::Limit,
        DecodeFailure::ResetRequired,
    ] {
        let mut player = session();
        let mut producer = Producer::start(&mut player, STEREO, 0, &[0.1]);
        producer.absorb(&mut player, DecodeEvent::Failed(failure));
        assert_eq!(player.queued_samples(), 1);
        assert_eq!(producer.next_action(&mut player, false), ProducerAction::Wait(100));
    }
}

#[test]
fn an_exhausted_source_stays_exhausted() {
    let mut player = session();
    let mut producer = Producer::start(&mut player, STEREO, 0, &[0.1]);
    producer.absorb(&mut player, DecodeEvent::SourceEnded);
    producer.absorb(&mut player, DecodeEvent::Block(vec![0.2]));
    producer.absorb(&mut player, DecodeEvent::Failed(DecodeFailure::Malformed));
    assert_eq!(player.queued_samples(), 2);
    assert_eq!(producer.next_action(&mut player, false), ProducerAction::Wait(100));
}

#[test]
fn a_track_plays_out_and_stops_by_itself() {
    let mut player: AudioPlayer<f32> = AudioPlayer::new();
    player.play_song(Some(PathBuf::from("track.mp3")), 0);
    player.set_total_duration(Some(441_000), Some(44_100));
    assert_eq!(player.total_duration(), 10_000_000_000);
    let block = [0.25f32; 260];
    let mut producer = Producer::start(&mut player, STEREO, 0, &block);
    assert_eq!(player.queued_samples(), 260);
    assert_eq!(producer.next_action(&mut player, false), ProducerAction::Decode);
    producer.absorb(&mut player, DecodeEvent::SourceEnded);
    assert_eq!(producer.next_action(&mut player, false), ProducerAction::Wait(100));
    assert!(player.is_playing());
    let mut dest = [0.0f32; 260];
    assert_eq!(player.render(&mut dest, 0.0, unit_gain), SinkOutcome::Played);
    assert_eq!(dest, [0.25f32; 260]);
    assert_eq!(producer.next_action(&mut player, false), ProducerAction::Exit);
    assert!(!player.is_playing());
    assert!(!player.stop_requested());
}

#[test]
fn stop_joins_once_the_producer_has_ended_or_time_is_up() {
    assert_eq!(join_step(0, false), JoinStep::Poll(10));
    assert_eq!(join_step(190, false), JoinStep::Poll(10));
    assert_eq!(join_step(199, false), JoinStep::Poll(10));
    assert_eq!(join_step(200, false), JoinStep::Join);
    assert_eq!(join_step(u64::MAX, false), JoinStep::Join);
    assert_eq!(join_step(0, true), JoinStep::Join);
    assert_eq!(join_step(50, true), JoinStep::Join);
}
