use async_runtime::oneshot::OneshotSender;
use async_runtime::tokio_impl::TokioRuntime;

fn waiting_thread() -> tokio::runtime::Runtime {
    tokio::runtime::Builder::new_current_thread().enable_all().build().unwrap()
}

#[test]
fn oneshot_round_trip_yields_the_value() {
    let (tx, rx) = TokioRuntime::oneshot::<String>();
    assert_eq!(OneshotSender::send(tx, String::from("reply")), Ok(()));
    let rt = waiting_thread();
    assert_eq!(rt.block_on(rx), Ok(String::from("reply")));
}

#[test]
fn oneshot_value_crosses_tasks() {
    let (tx, rx) = TokioRuntime::oneshot::<u64>();
    let rt = waiting_thread();
    let got = rt.block_on(async move {
        let answering = tokio::spawn(async move { OneshotSender::send(tx, 77) });
        let got = rx.await;
        assert_eq!(answering.await.unwrap(), Ok(()));
        got
    });
    assert_eq!(got, Ok(77));
}

#[test]
fn oneshot_dropped_sender_resolves_with_error() {
    let (tx, rx) = TokioRuntime::oneshot::<u64>();
    drop(tx);
    let rt = waiting_thread();
    assert!(rt.block_on(rx).is_err());
}

#[test]
fn oneshot_send_to_dropped_receiver_returns_the_value() {
    let (tx, rx) = TokioRuntime::oneshot::<Vec<u8>>();
    drop(rx);
    assert_eq!(OneshotSender::send(tx, vec![1, 2, 3]), Err(vec![1, 2, 3]));
}

#[test]
fn oneshot_value_is_received_once() {
    let (tx, mut rx) = TokioRuntime::oneshot::<u8>();
    OneshotSender::send(tx, 5).unwrap();
    assert_eq!(rx.try_recv(), Ok(5));
    assert!(rx.try_recv().is_err());
}
