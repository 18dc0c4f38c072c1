use dataplotlib::plotbuilder::PlotBuilder2D;
use dataplotlib::plotter::{join_report, JoinReport, JoinTicket, Plotter};

#[test]
fn plotter_counts_each_request() {
    let mut plt = Plotter::new();
    let t1 = plt.plot2d(PlotBuilder2D::simple_xy(
        vec![(0.0, 0.0), (1.0, 1.0)],
        [1.0f32, 0.0, 0.0, 1.0],
    ));
    let t2 = plt.plot2d(PlotBuilder2D::simple_xy(vec![(2.0, 3.0)], [0.0f32, 1.0, 0.0, 1.0]));
    assert_eq!(t1.request.pvs.len(), 1);
    assert_eq!(t2.request.pvs.len(), 1);
    let ticket = plt.join();
    assert_eq!(ticket, JoinTicket { expected: 2 });
}

#[test]
fn join_on_idle_plotter_expects_nothing() {
    let plt = Plotter::new();
    let ticket = plt.join();
    assert_eq!(ticket.expected, 0);
    let outcomes: Vec<bool> = Vec::new();
    let report = join_report(ticket, &outcomes);
    assert_eq!(report, JoinReport { joined: 0, failures: 0 });
}

#[test]
fn join_report_counts_clean_completions() {
    let ticket = JoinTicket { expected: 3 };
    let outcomes = vec![true, true, true];
    let report = join_report(ticket, &outcomes);
    assert_eq!(report, JoinReport { joined: 3, failures: 0 });
}

#[test]
fn join_report_counts_failures_exactly() {
    let ticket = JoinTicket { expected: 4 };
    let outcomes = vec![true, false, true, false];
    let report = join_report(ticket, &outcomes);
    assert_eq!(report, JoinReport { joined: 4, failures: 2 });
}

#[test]
fn task_carries_the_request_unchanged() {
    let mut pb = PlotBuilder2D::simple_xy(vec![(5.0, 6.0)], [0.0f32, 0.0, 1.0, 1.0]);
    pb.title = Some(String::from("window one"));
    pb.min_y = Some(-2.5);
    let mut plt = Plotter::new();
    let task = plt.plot2d(pb);
    assert_eq!(task.request.title.as_deref(), Some("window one"));
    assert_eq!(task.request.min_y, Some(-2.5));
    assert!(task.request.max_y.is_none());
}
