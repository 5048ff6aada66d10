use jd_client::orchestrator::SOLUTION_CHANNEL_CAPACITY;
use tokio::sync::mpsc::channel;
use tokio::sync::mpsc::error::TrySendError;

#[test]
fn eleventh_unconsumed_solution_finds_the_channel_full() {
    let (send_solution, mut recv_solution) = channel::<u32>(SOLUTION_CHANNEL_CAPACITY);
    for solution in 0..10u32 {
        assert!(send_solution.try_send(solution).is_ok());
    }
    assert!(matches!(send_solution.try_send(10), Err(TrySendError::Full(10))));
    assert_eq!(recv_solution.try_recv().ok(), Some(0));
    assert!(send_solution.try_send(10).is_ok());
    assert!(matches!(send_solution.try_send(11), Err(TrySendError::Full(11))));
}
