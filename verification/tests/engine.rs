use revolver::llm::RigLlm;
use revolver::runner::{RunnerStep, TaskRunner};
use revolver::scheduler::{Scheduler, SchedulerCommand, SchedulerEffect, TaskUpdate};
use revolver::task::{Heuristics, Hypothesis, TaskDefinition, TaskPhase, TaskSnapshot, TaskStatus};

fn small_definition(id: usize, name: &str, max_iters: usize) -> TaskDefinition {
    TaskDefinition {
        id,
        name: name.to_string(),
        dataset: Vec::new(),
        heuristics: Heuristics { edge_threshold: 4200, min_blob_area: 120, contrast_boost: 12500 },
        max_iters,
        created_at: 0,
    }
}

fn scored(texts: &[&str], score: u32) -> Vec<Hypothesis> {
    texts
        .iter()
        .enumerate()
        .map(|(i, t)| Hypothesis { id: i, description: t.to_string(), score })
        .collect()
}

fn upserts(updates: &[TaskUpdate]) -> Vec<TaskSnapshot> {
    updates
        .iter()
        .filter_map(|u| match u {
            TaskUpdate::Upsert(s) => Some(s.clone()),
            TaskUpdate::Log { .. } => None,
        })
        .collect()
}

fn phase_rank(p: &TaskPhase) -> u32 {
    match p {
        TaskPhase::Defining => 0,
        TaskPhase::GeneratingHypotheses => 1,
        TaskPhase::EvaluatingHypotheses => 2,
        TaskPhase::Reducing => 3,
        TaskPhase::Synthesizing => 4,
        TaskPhase::Testing => 5,
        TaskPhase::Reporting => 6,
        TaskPhase::Finished => 7,
    }
}

#[test]
fn stopping_rule_terminates_by_fourth_iteration() {
    // The source keeps returning the same score from iteration 1 on, so
    // iteration 1 improves and iterations 2 and 3 stall: the runner must
    // move to reporting after iteration 3 even with a budget of 10.
    let mut runner = TaskRunner::new(small_definition(1, "stall", 10));
    runner.start();
    let mut iterations = 0usize;
    while let RunnerStep::IterationBoundary { next_iteration } = runner.step {
        runner.poll_cancel(false);
        iterations = next_iteration;
        runner.on_scored_hypotheses(scored(&["h1", "h2"], 8000));
    }
    assert!(matches!(runner.step, RunnerStep::AwaitingReport));
    assert!(iterations <= 4, "ran {iterations} iterations");
    assert_eq!(iterations, 3);
}

#[test]
fn cancel_before_any_progress_emits_one_cancelled_snapshot() {
    let mut scheduler = Scheduler::new();
    let effect = scheduler.handle_command(SchedulerCommand::AddTask { name: "t1".to_string() });
    let definition = match effect {
        SchedulerEffect::Spawn(d) => d,
        _ => panic!("expected a spawn effect"),
    };
    assert_eq!(definition.id, 1);
    let first = scheduler.handle_command(SchedulerCommand::CancelTask { id: 1 });
    assert!(matches!(first, SchedulerEffect::Signal { id: 1 }));
    // Cancelling again is a no-op signal, never an error.
    let second = scheduler.handle_command(SchedulerCommand::CancelTask { id: 1 });
    assert!(matches!(second, SchedulerEffect::Signal { id: 1 }));
    let unknown = scheduler.handle_command(SchedulerCommand::CancelTask { id: 99 });
    assert!(matches!(unknown, SchedulerEffect::Ignore));

    let mut runner = TaskRunner::new(definition);
    let mut updates = runner.start();
    updates.extend(runner.poll_cancel(true));
    assert!(matches!(runner.step, RunnerStep::Finished));

    let cancelled: Vec<_> = upserts(&updates)
        .into_iter()
        .filter(|s| matches!(s.status, TaskStatus::Cancelled))
        .collect();
    assert_eq!(cancelled.len(), 1);
    assert!(matches!(cancelled[0].phase, TaskPhase::Finished));
    assert!(cancelled[0].iteration == 0 || cancelled[0].iteration == 1);
    // Every task's emitted sequence ends at exactly full progress,
    // cancelled ones included.
    assert_eq!(cancelled[0].progress, 10000);
    let all = upserts(&updates);
    assert_eq!(all.last().unwrap().progress, 10000);
}

#[test]
fn fixed_scores_reach_done_with_best_score() {
    let mut runner = TaskRunner::new(small_definition(1, "t1", 6));
    let mut updates = runner.start();
    while let RunnerStep::IterationBoundary { .. } = runner.step {
        updates.extend(runner.poll_cancel(false));
        updates.extend(runner.on_scored_hypotheses(scored(&["h1", "h2", "h3"], 8000)));
    }
    assert!(matches!(runner.step, RunnerStep::AwaitingReport));
    updates.extend(runner.on_report(Ok("reports/task_1_t1.md".to_string())));

    let snaps = upserts(&updates);
    let last = snaps.last().expect("no snapshots");
    assert!(matches!(last.status, TaskStatus::Done));
    assert!(matches!(last.phase, TaskPhase::Finished));
    assert!(last.verified.len() >= 1);
    assert_eq!(last.best_score, 8000);
    assert_eq!(last.progress, 10000);
    assert_eq!(last.report_path.as_deref(), Some("reports/task_1_t1.md"));
}

#[test]
fn report_failure_marks_task_failed() {
    let mut runner = TaskRunner::new(small_definition(4, "fails", 1));
    runner.start();
    runner.poll_cancel(false);
    runner.on_scored_hypotheses(scored(&["h1"], 1000));
    assert!(matches!(runner.step, RunnerStep::AwaitingReport));
    let updates = runner.on_report(Err("disk full".to_string()));
    let snaps = upserts(&updates);
    assert_eq!(snaps.len(), 1);
    match &snaps[0].status {
        TaskStatus::Failed(reason) => assert_eq!(reason, "disk full"),
        other => panic!("expected a failure, got {other:?}"),
    }
    assert!(snaps[0].report_path.is_none());
}

#[test]
fn emitted_stream_is_monotone_and_capped() {
    let llm = RigLlm::new_mock();
    let mut runner = TaskRunner::new(TaskDefinition::mock(2, "monotone".to_string()));
    let mut updates = runner.run_mock_iterations(&llm);
    updates.extend(runner.on_report(Ok("reports/task_2_monotone.md".to_string())));

    let snaps = upserts(&updates);
    assert!(snaps.len() >= 3);
    for pair in snaps.windows(2) {
        // Progress and best score never decrease (the emitted sequence laws).
        assert!(pair[0].progress <= pair[1].progress);
        assert!(pair[0].best_score <= pair[1].best_score);
        // Phases move forward through the pipeline, iteration by iteration.
        assert!(
            pair[0].iteration < pair[1].iteration
                || (pair[0].iteration == pair[1].iteration
                    && phase_rank(&pair[0].phase) <= phase_rank(&pair[1].phase))
        );
    }
    for s in &snaps {
        assert!(s.verified.len() <= 5);
        assert!(s.discarded.len() <= 5);
        // Classification by the fixed threshold, visible in every tail.
        for h in &s.verified {
            assert!(h.score >= 6000 && h.score <= 10000);
        }
        for h in &s.discarded {
            assert!(h.score < 6000);
        }
    }
    // Finished appears exactly once, last.
    let finished: Vec<_> =
        snaps.iter().enumerate().filter(|(_, s)| matches!(s.phase, TaskPhase::Finished)).collect();
    assert_eq!(finished.len(), 1);
    assert_eq!(finished[0].0, snaps.len() - 1);
    assert_eq!(snaps.last().unwrap().progress, 10000);
}

#[test]
fn discarded_scores_still_drive_last_and_best() {
    let mut runner = TaskRunner::new(small_definition(6, "discards", 3));
    runner.start();
    runner.poll_cancel(false);
    let updates = runner.on_scored_hypotheses(scored(&["h1"], 5000));
    let snaps = upserts(&updates);
    // The iteration's best is the maximum over ALL scored hypotheses, so a
    // discarded 0.50 shows up as the last score and improves the best.
    let reducing = snaps.iter().find(|s| matches!(s.phase, TaskPhase::Reducing)).unwrap();
    assert_eq!(reducing.last_score, 5000);
    assert!(reducing.verified.is_empty());
    assert_eq!(reducing.discarded.len(), 1);
    assert_eq!(snaps.last().unwrap().best_score, 5000);
}

#[test]
fn zero_iteration_budget_goes_straight_to_reporting() {
    let mut runner = TaskRunner::new(small_definition(3, "empty", 0));
    let updates = runner.start();
    assert!(matches!(runner.step, RunnerStep::AwaitingReport));
    let snaps = upserts(&updates);
    assert!(matches!(snaps.last().unwrap().phase, TaskPhase::Reporting));
}

#[test]
fn scheduler_assigns_sequential_ids_and_never_reuses_them() {
    let mut scheduler = Scheduler::new();
    for expected in 1..=3usize {
        let effect =
            scheduler.handle_command(SchedulerCommand::AddTask { name: format!("t{expected}") });
        match effect {
            SchedulerEffect::Spawn(d) => assert_eq!(d.id, expected),
            _ => panic!("expected a spawn effect"),
        }
    }
    scheduler.handle_command(SchedulerCommand::CancelTask { id: 2 });
    let effect = scheduler.handle_command(SchedulerCommand::AddTask { name: "t4".to_string() });
    match effect {
        SchedulerEffect::Spawn(d) => assert_eq!(d.id, 4),
        _ => panic!("expected a spawn effect"),
    }
    assert!(matches!(
        scheduler.handle_command(SchedulerCommand::Shutdown),
        SchedulerEffect::Stop
    ));
}
