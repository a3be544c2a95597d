use estunnel::cmd::{completion, effective_user, run_result, CompletionOpt, Shell};
use estunnel::error::PullError;
use estunnel::fanin::{render_batch, Countdown};
use estunnel::plan::{annotate, descriptor, plan_slices};
use estunnel::protocol::{continuation_request, decode_page, initial_request, parse_response, Page};
use estunnel::worker::{ScrollWorker, Status};

fn body(docs: &[&str], cursor: &str, total: u64) -> String {
    let hits: Vec<String> = docs.iter().map(|d| format!("{{\"_id\":\"x\",\"_source\":{}}}", d)).collect();
    format!(
        "{{\"_scroll_id\":\"{}\",\"took\":1,\"hits\":{{\"total\":{},\"hits\":[{}]}}}}",
        cursor,
        total,
        hits.join(",")
    )
}

/// Runs one slice against canned responses, as the caller's loop does.
fn run_slice(responses: &[(u16, String)]) -> (ScrollWorker, Vec<Vec<String>>, Option<PullError>) {
    let mut w = ScrollWorker::new("http://es:9200".to_string(), "1m".to_string());
    let mut batches = Vec::new();
    for (code, text) in responses {
        match parse_response(*code, text.clone()) {
            Ok(page) => {
                let step = w.on_page(page);
                if let Some(b) = step.batch {
                    batches.push(b);
                }
                if step.next.is_none() {
                    return (w, batches, None);
                }
            }
            Err(e) => {
                w.on_failure();
                return (w, batches, Some(e));
            }
        }
    }
    (w, batches, None)
}

#[test]
fn one_slice_keeps_query_unchanged() {
    let q = "{\"query\":{\"match_all\":{}}}";
    let v = plan_slices(q, 1).unwrap();
    assert_eq!(v, vec![q.to_string()]);
}

#[test]
fn three_slices_are_annotated() {
    let q = "{\"query\":{\"match_all\":{}}}";
    let v = plan_slices(q, 3).unwrap();
    assert_eq!(v.len(), 3);
    for (i, s) in v.iter().enumerate() {
        assert_eq!(
            s,
            &format!("{{\"query\":{{\"match_all\":{{}}}},\"slice\":{{\"id\":{},\"max\":3}}}}", i)
        );
    }
    // the caller's query is untouched
    assert_eq!(q, "{\"query\":{\"match_all\":{}}}");
}

#[test]
fn many_slices_give_as_many_variants() {
    for n in 1..=12u32 {
        assert_eq!(plan_slices("{}", n).unwrap().len(), n as usize);
    }
}

#[test]
fn slicing_a_non_object_fails() {
    assert!(plan_slices("[1,2]", 2).is_none());
    assert_eq!(plan_slices("[1,2]", 1).unwrap(), vec!["[1,2]".to_string()]);
    assert!(annotate("not json", 0, 2).is_none());
}

#[test]
fn descriptor_text() {
    assert_eq!(descriptor(0, 3), "{\"id\":0,\"max\":3}");
    assert_eq!(descriptor(41, 4294967295), "{\"id\":41,\"max\":4294967295}");
}

#[test]
fn annotation_replaces_existing_slice() {
    let s = annotate("{\"slice\":{\"id\":9,\"max\":9},\"size\":5}", 1, 2).unwrap();
    assert_eq!(s, "{\"size\":5,\"slice\":{\"id\":1,\"max\":2}}");
}

#[test]
fn initial_request_shape() {
    let r = initial_request("http://es:9200", "logs", "5m", Some(500), "{}");
    assert_eq!(r.url, "http://es:9200/logs/_search");
    assert_eq!(r.params, vec![("scroll".to_string(), "5m".to_string()), ("size".to_string(), "500".to_string())]);
    assert_eq!(r.body, "{}");
    let r = initial_request("h", "i", "1m", None, "{\"a\":1}");
    assert_eq!(r.params, vec![("scroll".to_string(), "1m".to_string())]);
    assert_eq!(r.body, "{\"a\":1}");
}

#[test]
fn continuation_request_shape() {
    let r = continuation_request("http://es:9200", "1m", "c\"1");
    assert_eq!(r.url, "http://es:9200/_search/scroll");
    assert!(r.params.is_empty());
    assert_eq!(r.body, "{\"scroll\":\"1m\",\"scroll_id\":\"c\\\"1\"}");
}

#[test]
fn decode_scroll_response() {
    let p = decode_page(&body(&["{\"k\":[1,2]}", "\"s\""], "abc", 7)).unwrap();
    assert_eq!(p.docs, vec!["{\"k\":[1,2]}".to_string(), "\"s\"".to_string()]);
    assert_eq!(p.cursor, "abc");
    assert_eq!(p.total, 7);
}

#[test]
fn decode_rejects_malformed_bodies() {
    assert_eq!(decode_page("nope").err(), Some(PullError::Malformed));
    assert_eq!(decode_page("{\"hits\":{\"total\":1,\"hits\":[]}}").err(), Some(PullError::Malformed));
    assert_eq!(
        decode_page("{\"_scroll_id\":\"a\",\"hits\":{\"total\":-1,\"hits\":[]}}").err(),
        Some(PullError::Malformed)
    );
    assert_eq!(
        decode_page("{\"_scroll_id\":\"a\",\"hits\":{\"total\":1,\"hits\":[{\"_id\":1}]}}").err(),
        Some(PullError::Malformed)
    );
}

#[test]
fn non_200_status_is_an_error() {
    let r = parse_response(503, "busy".to_string());
    assert_eq!(r.err(), Some(PullError::Status { code: 503, body: "busy".to_string() }));
}

#[test]
fn three_documents_in_slice_order() {
    let (w, batches, err) = run_slice(&[
        (200, body(&["\"a\"", "\"b\""], "c1", 3)),
        (200, body(&["\"c\""], "c2", 3)),
        (200, body(&[], "c3", 3)),
    ]);
    assert!(err.is_none());
    let out: String = batches.iter().map(render_batch).collect();
    assert_eq!(out, "\"a\"\n\"b\"\n\"c\"\n");
    assert_eq!(out.lines().count(), 3);
    assert_eq!(w.progress.status, Status::Finished);
    assert_eq!(w.progress.total, 3);
    assert_eq!(w.progress.position, 3);
    assert_eq!(batches.len(), 2);
    assert_eq!(w.sent, 2);
}

#[test]
fn follow_up_uses_the_cursor() {
    let mut w = ScrollWorker::new("http://h".to_string(), "2m".to_string());
    let page = Page { docs: vec!["1".to_string()], cursor: "c1".to_string(), total: 2 };
    let step = w.on_page(page);
    let next = step.next.unwrap();
    assert_eq!(next.url, "http://h/_search/scroll");
    assert_eq!(next.body, "{\"scroll\":\"2m\",\"scroll_id\":\"c1\"}");
    assert_eq!(w.progress.status, Status::Running);
}

#[test]
fn failed_first_request_writes_nothing() {
    let (w, batches, err) = run_slice(&[(500, "oops".to_string())]);
    assert_eq!(err, Some(PullError::Status { code: 500, body: "oops".to_string() }));
    assert!(batches.is_empty());
    assert_eq!(w.progress.status, Status::Failed);
    assert_eq!(w.sent, 0);
}

#[test]
fn empty_slice_still_sends_one_batch() {
    let (w, batches, err) = run_slice(&[(200, body(&[], "c0", 0))]);
    assert!(err.is_none());
    assert_eq!(batches, vec![Vec::<String>::new()]);
    assert_eq!(w.sent, 1);
    assert_eq!(w.progress.status, Status::Finished);
}

#[test]
fn written_lines_match_documents_across_slices() {
    let slices = vec![
        vec![vec!["1", "2"], vec!["3"], vec![]],
        vec![vec![]],
        vec![vec!["4", "5", "6"], vec![]],
    ];
    let mut out = String::new();
    let mut returned = 0;
    for pages in &slices {
        for p in pages {
            let batch: Vec<String> = p.iter().map(|s| s.to_string()).collect();
            returned += batch.len();
            out.push_str(&render_batch(&batch));
        }
    }
    assert_eq!(out.lines().count(), returned);
    assert_eq!(returned, 6);
}

#[test]
fn render_empty_batch() {
    assert_eq!(render_batch(&Vec::new()), "");
}

#[test]
fn countdown_closes_after_last_producer() {
    let mut c = Countdown::new(3);
    assert!(!c.closed());
    c.finish_one();
    c.finish_one();
    assert!(!c.closed());
    c.finish_one();
    assert!(c.closed());
}

#[test]
fn position_saturates() {
    let mut w = ScrollWorker::new("h".to_string(), "t".to_string());
    w.progress.position = u64::MAX - 1;
    w.progress.status = Status::Running;
    w.sent = 1;
    let _ = w.on_page(Page { docs: vec!["1".to_string(), "2".to_string()], cursor: "c".to_string(), total: 9 });
    assert_eq!(w.progress.position, u64::MAX);
}

#[test]
fn completion_job() {
    let j = completion(CompletionOpt { shell: Shell::Zsh, output: "/tmp/c".to_string() });
    assert_eq!(j.program, "estunnel");
    assert_eq!(j.shell, Shell::Zsh);
    assert_eq!(j.directory, "/tmp/c");
}

#[test]
fn default_user() {
    assert_eq!(effective_user(None), "estunnel");
    assert_eq!(effective_user(Some("bob".to_string())), "bob");
}

#[test]
fn last_empty_page_is_not_handed_on() {
    let mut w = ScrollWorker::new("h".to_string(), "t".to_string());
    let step = w.on_page(Page { docs: vec!["1".to_string()], cursor: "c1".to_string(), total: 1 });
    assert_eq!(step.batch, Some(vec!["1".to_string()]));
    let step = w.on_page(Page { docs: vec![], cursor: "c2".to_string(), total: 1 });
    assert_eq!(step.batch, None);
    assert!(step.next.is_none());
    assert_eq!(w.sent, 1);
    assert_eq!(w.progress.status, Status::Finished);
}

#[test]
fn total_comes_from_first_page() {
    let (w, _, err) = run_slice(&[
        (200, body(&["1"], "c1", 5)),
        (200, body(&["2"], "c2", 9)),
        (200, body(&[], "c3", 4)),
    ]);
    assert!(err.is_none());
    assert_eq!(w.progress.total, 5);
    assert_eq!(w.progress.position, 2);
}

#[test]
fn run_result_prefers_slice_failure() {
    assert_eq!(run_result(Some(PullError::Transport), Err(PullError::Sink)), Err(PullError::Transport));
    assert_eq!(run_result(None, Err(PullError::Sink)), Err(PullError::Sink));
    assert_eq!(run_result(None, Ok(())), Ok(()));
}
