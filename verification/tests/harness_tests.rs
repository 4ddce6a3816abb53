use krark::{
    ColorSetting, KrarkHarness, KrarkRecap, KrarkReport, KrarkResult, NamedItem, PanicPayload,
    TestArgs,
};

fn harness() -> KrarkHarness {
    KrarkHarness::new(
        "Cards".to_string(),
        TestArgs { logfile: Some("cards.log".to_string()), color: Some(ColorSetting::Auto) },
    )
}

const NAMES: [&str; 100] = [
    "00", "01", "02", "03", "04", "05", "06", "07", "08", "09", "10", "11", "12", "13", "14",
    "15", "16", "17", "18", "19", "20", "21", "22", "23", "24", "25", "26", "27", "28", "29",
    "30", "31", "32", "33", "34", "35", "36", "37", "38", "39", "40", "41", "42", "43", "44",
    "45", "46", "47", "48", "49", "50", "51", "52", "53", "54", "55", "56", "57", "58", "59",
    "60", "61", "62", "63", "64", "65", "66", "67", "68", "69", "70", "71", "72", "73", "74",
    "75", "76", "77", "78", "79", "80", "81", "82", "83", "84", "85", "86", "87", "88", "89",
    "90", "91", "92", "93", "94", "95", "96", "97", "98", "99",
];

fn numbered(len: usize) -> Vec<NamedItem<usize>> {
    (0..len).map(|i| NamedItem { name: NAMES[i], item: i }).collect()
}

fn pass_all(_item: &usize, mut result: KrarkResult) -> Result<KrarkResult, PanicPayload> {
    result.assert_eq(1, 1, "always".to_string());
    Ok(result)
}

fn passed_names(recap: &KrarkRecap) -> Vec<&'static str> {
    recap.passed.iter().map(|p| p.card_name).collect()
}

fn total(report: &KrarkReport) -> usize {
    report.recap.passed.len() + report.recap.failed.len() + report.recap.panicked.len()
}

#[test]
fn run_visits_every_item_in_order() {
    let dataset = numbered(7);
    let report = harness().run(&dataset, pass_all);
    assert_eq!(passed_names(&report.recap), vec!["00", "01", "02", "03", "04", "05", "06"]);
    assert_eq!(total(&report), 7);
    assert_eq!(report.recap.total(), 7);
}

#[test]
fn run_on_empty_dataset_gives_empty_recap() {
    let dataset: Vec<NamedItem<usize>> = Vec::new();
    let mut h = harness();
    let report = h.run(&dataset, pass_all);
    assert_eq!(total(&report), 0);
    assert!(report.text.contains("┃Total   │0       ┃"));
    assert_eq!(total(&h.run_on_sample(&dataset, 5, pass_all)), 0);
    assert_eq!(total(&h.run_filter(&dataset, |_| true, pass_all)), 0);
}

#[test]
fn run_sorts_results_into_three_sequences() {
    let dataset = numbered(9);
    let report = harness().run(&dataset, |item, mut result| match item % 3 {
        0 => Ok(result),
        1 => {
            result.assert_eq(*item, 0, "is zero".to_string());
            Ok(result)
        }
        _ => Err(PanicPayload::Opaque),
    });
    let recap = &report.recap;
    assert_eq!(passed_names(recap), vec!["00", "03", "06"]);
    let failed: Vec<&str> = recap.failed.iter().map(|f| f.card_name).collect();
    assert_eq!(failed, vec!["01", "04", "07"]);
    let panicked: Vec<&str> = recap.panicked.iter().map(|p| p.card_name).collect();
    assert_eq!(panicked, vec!["02", "05", "08"]);
    assert_eq!(recap.passed.len() + recap.failed.len() + recap.panicked.len(), 9);
    assert!(recap.panicked.iter().all(|p| p.trace == "Unknown panic payload"));
}

#[test]
fn run_filter_keeps_dataset_order_among_survivors() {
    let dataset = numbered(10);
    let report = harness().run_filter(&dataset, |item| item % 4 == 1 || *item == 8, pass_all);
    assert_eq!(passed_names(&report.recap), vec!["01", "05", "08", "09"]);
    let none = harness().run_filter(&dataset, |_| false, pass_all);
    assert_eq!(total(&none), 0);
    let all = harness().run_filter(&dataset, |_| true, pass_all);
    assert_eq!(total(&all), 10);
}

#[test]
fn run_on_sample_of_ten_out_of_hundred() {
    let dataset = numbered(100);
    let report = harness().run_on_sample(&dataset, 10, pass_all);
    assert_eq!(
        passed_names(&report.recap),
        vec!["00", "10", "20", "30", "40", "50", "60", "70", "80", "90"]
    );
    assert_eq!(total(&report), 10);
}

#[test]
fn run_on_sample_of_zero_visits_nothing() {
    let dataset = numbered(100);
    let report = harness().run_on_sample(&dataset, 0, |_, _| Err(PanicPayload::Opaque));
    assert_eq!(report.recap.passed.len(), 0);
    assert_eq!(report.recap.failed.len(), 0);
    assert_eq!(report.recap.panicked.len(), 0);
    assert_eq!(report.recap.total(), 0);
    assert!(report.text.contains("┃Passed  │0 (0.0%)┃"));
    assert!(report.text.contains("┃Failed  │0 (0.0%)┃"));
    assert!(report.text.contains("┃Panicked│0 (0.0%)┃"));
    assert!(report.text.contains("┃Total   │0       ┃"));
}

#[test]
fn run_on_sample_strides() {
    let dataset = numbered(10);
    let visited = |sample_size: usize| {
        let report = harness().run_on_sample(&dataset, sample_size, pass_all);
        passed_names(&report.recap)
    };
    assert_eq!(visited(1), vec!["00"]);
    assert_eq!(visited(3), vec!["00", "03", "06"]);
    assert_eq!(visited(4), vec!["00", "02", "04", "06"]);
    assert_eq!(visited(5), vec!["00", "02", "04", "06", "08"]);
    assert_eq!(visited(6), vec!["00", "01", "02", "03", "04", "05"]);
    assert_eq!(visited(10).len(), 10);
    assert_eq!(visited(11).len(), 10);
    assert_eq!(visited(usize::MAX).len(), 10);
}

#[test]
fn abort_on_one_item_leaves_the_others_alone() {
    let dataset = numbered(5);
    let check = |abort_on: Option<usize>| {
        move |item: &usize, mut result: KrarkResult| {
            if Some(*item) == abort_on {
                return Err(PanicPayload::Message(format!("item {item} blew up")));
            }
            result.assert_eq(item % 2, 0, "even".to_string());
            Ok(result)
        }
    };
    let calm = harness().run(&dataset, check(None));
    let stormy = harness().run(&dataset, check(Some(2)));
    assert_eq!(passed_names(&calm.recap), vec!["00", "02", "04"]);
    assert_eq!(passed_names(&stormy.recap), vec!["00", "04"]);
    assert_eq!(stormy.recap.panicked.len(), 1);
    assert_eq!(stormy.recap.panicked[0].card_name, "02");
    assert_eq!(stormy.recap.panicked[0].trace, "item 2 blew up");
    assert_eq!(calm.recap.failed.len(), 2);
    assert_eq!(stormy.recap.failed.len(), 2);
    for (a, b) in calm.recap.failed.iter().zip(stormy.recap.failed.iter()) {
        assert_eq!(a.card_name, b.card_name);
        assert_eq!(a.failed.len(), b.failed.len());
        assert_eq!(a.failed[0].failure, b.failed[0].failure);
    }
}

#[test]
fn end_to_end_three_items() {
    let dataset = vec![
        NamedItem { name: "A", item: 'a' },
        NamedItem { name: "B", item: 'b' },
        NamedItem { name: "C", item: 'c' },
    ];
    let mut h = harness();
    let report = h.run(&dataset, |item, mut result| match item {
        'a' => {
            result.assert_eq("x", "x", "x == x".to_string());
            Ok(result)
        }
        'b' => {
            result.assert_eq(1, 2, "x != y".to_string());
            Ok(result)
        }
        _ => Err(PanicPayload::Literal("boom")),
    });
    let recap = &report.recap;
    assert_eq!(passed_names(recap), vec!["A"]);
    assert_eq!(recap.failed.len(), 1);
    assert_eq!(recap.failed[0].card_name, "B");
    assert_eq!(recap.failed[0].failed.len(), 1);
    assert_eq!(recap.failed[0].failed[0].check_name, "x != y");
    assert_eq!(recap.panicked.len(), 1);
    assert_eq!(recap.panicked[0].card_name, "C");
    assert_eq!(recap.panicked[0].trace, "boom");
    let expected = "\
┏━━━━━━━━━━━━━━━━━━┓
┃Cards             ┃
┣━━━━━━━━┯━━━━━━━━━┫
┃Passed  │1 (33.3%)┃
┠────────┼─────────┨
┃Failed  │1 (33.3%)┃
┠────────┼─────────┨
┃Panicked│1 (33.3%)┃
┠────────┼─────────┨
┃Total   │3        ┃
┗━━━━━━━━┷━━━━━━━━━┛
Failed:
  B
    x != y: expected 1, obtained 2
Panicked:
  C: boom
";
    assert_eq!(report.text, expected);
    assert_eq!(krark::output_recap(&h, &report.recap), expected);
    assert_eq!(h.name(), "Cards");
}
