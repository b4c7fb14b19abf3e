use std::time::Duration;

use async_runtime::mpsc_unbounded::{MpscUnbounded, MpscUnboundedReceiver, MpscUnboundedSender};
use async_runtime::oneshot::OneshotSender;
use async_runtime::{TokioMpscUnbounded, TokioRuntime};
use tokio::time::Instant;

fn timed_runtime() -> tokio::runtime::Runtime {
    tokio::runtime::Builder::new_current_thread().enable_all().build().unwrap()
}

#[test]
fn timeout_yields_the_result_of_a_faster_operation() {
    let (tx, rx) = TokioRuntime::oneshot::<u32>();
    let rt = timed_runtime();
    let got = rt.block_on(async move {
        tokio::spawn(async move {
            tokio::time::sleep(Duration::from_millis(10)).await;
            OneshotSender::send(tx, 123).unwrap();
        });
        tokio::time::timeout(Duration::from_secs(5), rx).await
    });
    assert_eq!(got.unwrap(), Ok(123));
}

#[test]
fn timeout_elapses_and_stops_driving_a_slower_operation() {
    let (tx, mut rx) = <TokioMpscUnbounded as MpscUnbounded<&'static str>>::channel();
    let rt = timed_runtime();
    let elapsed = rt.block_on(async move {
        let slow = async move {
            MpscUnboundedSender::send(&tx, "started").unwrap();
            tokio::time::sleep(Duration::from_millis(300)).await;
            MpscUnboundedSender::send(&tx, "finished").unwrap();
        };
        let raced = tokio::time::timeout(Duration::from_millis(30), slow).await;
        tokio::time::sleep(Duration::from_millis(500)).await;
        raced.is_err()
    });
    assert!(elapsed);
    assert_eq!(MpscUnboundedReceiver::try_recv(&mut rx), Ok("started"));
    assert!(MpscUnboundedReceiver::try_recv(&mut rx).is_err());
}

#[test]
fn timeout_at_a_past_deadline_still_takes_a_ready_result() {
    let rt = timed_runtime();
    let got = rt.block_on(async {
        tokio::time::timeout_at(Instant::now(), std::future::ready(5u8)).await
    });
    assert_eq!(got.unwrap(), 5);
}

#[test]
fn sleep_does_not_fire_early() {
    let rt = timed_runtime();
    let waited = rt.block_on(async {
        let before = Instant::now();
        tokio::time::sleep(Duration::from_millis(40)).await;
        before.elapsed()
    });
    assert!(waited >= Duration::from_millis(40));
}

#[test]
fn concurrent_sleeps_resolve_in_deadline_order_and_never_early() {
    let (tx, mut rx) = <TokioMpscUnbounded as MpscUnbounded<(u64, bool)>>::channel();
    let rt = timed_runtime();
    rt.block_on(async move {
        let start = Instant::now();
        let mut tasks = Vec::new();
        for millis in [90u64, 30, 150, 60, 120] {
            let tx = tx.clone();
            tasks.push(tokio::spawn(async move {
                let deadline = start + Duration::from_millis(millis);
                tokio::time::sleep_until(deadline).await;
                let on_time = Instant::now() >= deadline;
                MpscUnboundedSender::send(&tx, (millis, on_time)).unwrap();
            }));
        }
        drop(tx);
        for task in tasks {
            task.await.unwrap();
        }
    });
    let mut order = Vec::new();
    while let Ok((millis, on_time)) = MpscUnboundedReceiver::try_recv(&mut rx) {
        assert!(on_time);
        order.push(millis);
    }
    assert_eq!(order, vec![30, 60, 90, 120, 150]);
}
