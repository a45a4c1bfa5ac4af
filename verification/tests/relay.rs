use clash_lib::io::{combine_directions, Phase, Relay, RelayAction, RelayEvent, SyncMsg};

type Ev = RelayEvent<&'static str>;
type Act = RelayAction<&'static str>;

#[test]
fn copies_chunks_and_counts_them() {
    let mut r = Relay::new();
    assert_eq!(r.transferred, 0);
    assert!(!r.need_timeout);
    assert_eq!(r.step(Ev::Read(5)), Act::Write(5));
    assert_eq!(r.phase, Phase::Writing(5));
    assert_eq!(r.step(Ev::Written), Act::Wait);
    assert_eq!(r.transferred, 5);
    assert_eq!(r.step(Ev::Read(7)), Act::Write(7));
    assert_eq!(r.step(Ev::Written), Act::Wait);
    assert_eq!(r.transferred, 12);
    assert_eq!(r.step(Ev::Read(0)), Act::Shutdown);
    assert_eq!(
        r.step(Ev::ShutDown),
        Act::Finish { notify: Some(SyncMsg::SetTimeOut), result: Ok(12) }
    );
    assert_eq!(r.phase, Phase::Finished);
}

#[test]
fn failed_shutdown_is_passed_to_the_other_side() {
    let mut r = Relay::new();
    assert_eq!(r.step(Ev::Read(3)), Act::Write(3));
    assert_eq!(r.step(Ev::Written), Act::Wait);
    assert_eq!(r.step(Ev::Read(0)), Act::Shutdown);
    assert_eq!(
        r.step(Ev::ShutdownFailed("broken pipe")),
        Act::Finish { notify: Some(SyncMsg::Terminate("broken pipe")), result: Ok(3) }
    );
}

#[test]
fn other_side_done_arms_the_idle_timer() {
    let mut r = Relay::new();
    assert_eq!(r.step(Ev::Message(SyncMsg::SetTimeOut)), Act::Wait);
    assert!(r.need_timeout);
    assert_eq!(r.step(Ev::Read(4)), Act::Write(4));
    assert_eq!(r.step(Ev::Written), Act::Wait);
    assert!(r.need_timeout);
    assert_eq!(r.step(Ev::TimerElapsed), Act::Finish { notify: None, result: Ok(4) });
}

#[test]
fn closed_channel_arms_the_idle_timer() {
    let mut r = Relay::new();
    assert_eq!(r.step(Ev::ChannelClosed), Act::Wait);
    assert!(r.need_timeout);
    assert_eq!(r.phase, Phase::Relaying);
}

#[test]
fn errors_end_the_direction() {
    let mut r = Relay::new();
    assert_eq!(
        r.step(Ev::Message(SyncMsg::Terminate("reset"))),
        Act::Finish { notify: None, result: Err("reset") }
    );
    let mut r = Relay::new();
    assert_eq!(r.step(Ev::ReadFailed("read")), Act::Finish { notify: None, result: Err("read") });
    let mut r = Relay::new();
    assert_eq!(r.step(Ev::Read(9)), Act::Write(9));
    assert_eq!(r.step(Ev::WriteFailed("write")), Act::Finish { notify: None, result: Err("write") });
    assert_eq!(r.transferred, 0);
    let mut r = Relay::new();
    assert_eq!(r.step(Ev::Message(SyncMsg::Done)), Act::Finish { notify: None, result: Ok(0) });
}

#[test]
fn combined_results() {
    assert_eq!(combine_directions::<&str>(Ok(Ok(10)), Ok(Ok(20))), Ok((10, 20)));
    assert_eq!(combine_directions(Err("join up"), Ok(Err("down"))), Err("join up"));
    assert_eq!(combine_directions(Ok(Err("up")), Err("join down")), Err("up"));
    assert_eq!(combine_directions(Ok(Ok(1)), Ok(Err("down"))), Err("down"));
    assert_eq!(combine_directions(Ok(Ok(1)), Err("join down")), Err("join down"));
    assert_eq!(
        combine_directions::<&str>(Ok(Ok(usize::MAX)), Ok(Ok(0))),
        Ok((usize::MAX as u64, 0))
    );
}

#[test]
fn count_is_the_sum_of_written_chunks() {
    let mut r = Relay::new();
    let mut expected = 0;
    for n in [1usize, 1000, 3, 65536, 2] {
        assert_eq!(r.step(Ev::Read(n)), Act::Write(n));
        assert_eq!(r.step(Ev::Written), Act::Wait);
        expected += n;
        assert_eq!(r.transferred, expected);
    }
    assert_eq!(r.step(Ev::Message(SyncMsg::SetTimeOut)), Act::Wait);
    assert_eq!(r.step(Ev::Read(0)), Act::Shutdown);
    assert_eq!(
        r.step(Ev::ShutDown),
        Act::Finish { notify: Some(SyncMsg::SetTimeOut), result: Ok(expected) }
    );
}

fn copy(r: &mut Relay, chunks: &[usize]) {
    for &c in chunks {
        assert_eq!(r.step(Ev::Read(c)), Act::Write(c));
        assert_eq!(r.step(Ev::Written), Act::Wait);
    }
}

#[test]
fn relay_reports_the_bytes_of_each_direction() {
    let mut up = Relay::new();
    copy(&mut up, &[4, 6]);
    assert_eq!(up.step(Ev::Read(0)), Act::Shutdown);
    let u = match up.step(Ev::ShutDown) {
        Act::Finish { notify: _, result } => result,
        a => panic!("unexpected action {:?}", a),
    };
    let mut down = Relay::new();
    copy(&mut down, &[1, 2, 3]);
    assert_eq!(down.step(Ev::Message(SyncMsg::SetTimeOut)), Act::Wait);
    let d = match down.step(Ev::TimerElapsed) {
        Act::Finish { notify: _, result } => result,
        a => panic!("unexpected action {:?}", a),
    };
    assert_eq!(combine_directions(Ok(u), Ok(d)), Ok((10, 6)));
}
