use optics_base::error::AgentError;
use optics_base::events::LogEvent;
use optics_base::supervisor::Supervisor;
use optics_base::supervisor::TaskResult;

#[test]
fn three_replicas_one_failure_then_exhaustion() {
    // Replicas A, B, C; B's task fails first, A and C succeed later. The
    // failure is logged and attributed to B, the loop keeps going, and the
    // terminal error comes only when the last task ends, even though A and
    // C succeeded.
    let mut sup = Supervisor::new(vec!["A".to_string(), "B".to_string(), "C".to_string()]);

    let (log, terminal) = sup.on_completion(1, TaskResult::Failed("task failed".to_string()));
    assert_eq!(
        log,
        Some(LogEvent::ReplicaFailed {
            replica: "B".to_string(),
            error: "task failed".to_string(),
        })
    );
    assert!(terminal.is_none());
    assert_eq!(sup.active_count(), 2);

    let (log, terminal) = sup.on_completion(0, TaskResult::Succeeded);
    assert!(log.is_none());
    assert!(terminal.is_none());
    assert_eq!(sup.active_count(), 1);

    let (log, terminal) = sup.on_completion(0, TaskResult::Succeeded);
    assert!(log.is_none());
    assert_eq!(terminal, Some(AgentError::AllReplicasShutDown));
    assert_eq!(sup.active_count(), 0);
}

#[test]
fn single_replica_immediate_failure() {
    // One replica whose task fails at once: one logged failure, immediate
    // exhaustion, terminal error on the very first completion.
    let mut sup = Supervisor::new(vec!["solo".to_string()]);
    let (log, terminal) = sup.on_completion(0, TaskResult::Failed("boom".to_string()));
    assert_eq!(
        log,
        Some(LogEvent::ReplicaFailed {
            replica: "solo".to_string(),
            error: "boom".to_string(),
        })
    );
    assert_eq!(terminal, Some(AgentError::AllReplicasShutDown));
    assert_eq!(sup.active_count(), 0);
}

#[test]
fn all_successes_still_exhaust() {
    // Zero active replicas is an operational failure state even when every
    // task returned gracefully: the terminal error does not distinguish.
    let mut sup = Supervisor::new(vec!["east".to_string(), "west".to_string()]);
    let (log, terminal) = sup.on_completion(1, TaskResult::Succeeded);
    assert!(log.is_none());
    assert!(terminal.is_none());
    let (log, terminal) = sup.on_completion(0, TaskResult::Succeeded);
    assert!(log.is_none());
    assert_eq!(terminal, Some(AgentError::AllReplicasShutDown));
    assert_eq!(
        terminal.unwrap().describe(),
        "All replicas have shut down".to_string()
    );
}

#[test]
fn no_terminal_while_tasks_pending() {
    // The loop never terminates while any task is still pending: with five
    // names, the first four completions yield no terminal error.
    let names: Vec<String> = (0..5).map(|i| format!("replica{}", i)).collect();
    let mut sup = Supervisor::new(names);
    for _ in 0..4 {
        let (_, terminal) = sup.on_completion(0, TaskResult::Succeeded);
        assert!(terminal.is_none());
        assert!(sup.active_count() > 0);
    }
    let (_, terminal) = sup.on_completion(0, TaskResult::Succeeded);
    assert_eq!(terminal, Some(AgentError::AllReplicasShutDown));
}
