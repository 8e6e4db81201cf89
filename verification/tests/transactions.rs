use alglobo::actor_bank::reply_accepted;
use alglobo::actor_transmiter::{reply_event, ReplyEvent, TransactionStatus, Transmiter};
use alglobo::bank::bank_reply;
use alglobo::commons::commons::ExternalResponse;
use alglobo::commons::{BankPayment, DistMsg, ExternalMsg, FlightReservation, HotelReservation, Transaction};
use alglobo::external_airline::{airline_answer, airline_reply};
use alglobo::framing::{frame, is_whitespace, parse_i32, split_fields, trim, trim_end};
use alglobo::leader::main_loop::{resume_line, resume_offset};
use alglobo::leader::{accepted, Leader};
use alglobo::stats::Stats;
use alglobo::transaction_writer::{stamp, stamped, TransactionWriter};

fn transaction(id: u32) -> Transaction {
    Transaction {
        id,
        bank_payment: BankPayment { id, amount: 100 },
        flight_reservation: FlightReservation { id, amount: 100 },
        hotel_reservation: HotelReservation { id, amount: 100 },
    }
}

#[test]
fn transaction_get_id() {
    assert_eq!(transaction(42).get_id(), 42);
    assert_eq!(transaction(0).get_id(), 0);
}

#[test]
fn framing_appends_newline() {
    assert_eq!(frame("{\"Ping\"}".to_string()), "{\"Ping\"}\n");
    assert_eq!(frame(String::new()), "\n");
}

#[test]
fn trimming() {
    assert_eq!(trim("  abc \n"), "abc");
    assert_eq!(trim_end("  abc \r\n"), "  abc");
    assert_eq!(trim("\u{3000}x\u{a0}"), "x");
    assert_eq!(trim(" \t\n"), "");
    assert_eq!(trim(""), "");
    assert_eq!(trim("a b"), "a b");
    assert!(is_whitespace('\u{85}'));
    assert!(!is_whitespace('a'));
}

#[test]
fn splitting_fields() {
    assert_eq!(split_fields("1, 2.5,3,4"), vec!["1", " 2.5", "3", "4"]);
    assert_eq!(split_fields(""), vec![""]);
    assert_eq!(split_fields("a,"), vec!["a", ""]);
    assert_eq!(split_fields(",,"), vec!["", "", ""]);
    let s = "x,yy,zzz";
    let expected: Vec<String> = s.split(',').map(|f| f.to_string()).collect();
    assert_eq!(split_fields(s), expected);
}

#[test]
fn writer_logs_and_remembers() {
    let mut w = TransactionWriter::new();
    assert_eq!(w.last_line(), None);
    assert_eq!(w.log("abc".to_string()), "abc\n");
    assert_eq!(w.last_line(), Some("abc".to_string()));
    assert_eq!(w.log("def\n".to_string()), "def\n");
    assert_eq!(w.last_line(), Some("def\n".to_string()));
}

#[test]
fn writer_ten_times_same_line() {
    let mut w = TransactionWriter::new();
    let t = "{\"id\":10,\"bank_payment\":{\"id\":10,\"amount\":100},\"flight_reservation\":{\"id\":10,\"amount\":100},\"hotel_reservation\":{\"id\":10,\"amount\":100}}".to_string();
    for _ in 0..10 {
        assert_eq!(w.log(t.clone()), format!("{}\n", t));
    }
    assert_eq!(w.last_line(), Some(t));
}

#[test]
fn stamping() {
    assert_eq!(stamp("2024-01-02 03:04:05".to_string(), "line\n"), "2024-01-02 03:04:05: line\n");
    let s = stamped("x\n");
    assert!(s.ends_with(": x\n"));
    assert_eq!(s.matches('\n').count(), 1);
    assert!(s.len() > 4);
}

#[test]
fn resume_picks_latest_log() {
    assert_eq!(resume_line(None, None, None), None);
    assert_eq!(resume_line(Some(" c \n".to_string()), None, None), Some("c".to_string()));
    assert_eq!(resume_line(None, Some("r\n".to_string()), None), Some("r".to_string()));
    assert_eq!(
        resume_line(Some("c".to_string()), Some("r".to_string()), Some((transaction(5), transaction(3)))),
        Some("c".to_string())
    );
    assert_eq!(
        resume_line(Some("c".to_string()), Some("r".to_string()), Some((transaction(3), transaction(5)))),
        Some("r".to_string())
    );
    assert_eq!(
        resume_line(Some("c".to_string()), Some("r".to_string()), Some((transaction(4), transaction(4)))),
        Some("r".to_string())
    );
}

#[test]
fn resume_offset_counts_characters() {
    let lines = vec!["ab".to_string(), "cde".to_string(), "f".to_string()];
    assert_eq!(resume_offset(&lines, &"ab".to_string()), 0);
    assert_eq!(resume_offset(&lines, &"cde".to_string()), 3);
    assert_eq!(resume_offset(&lines, &"f".to_string()), 7);
    assert_eq!(resume_offset(&lines, &"zz".to_string()), 9);
    assert_eq!(resume_offset(&Vec::new(), &"zz".to_string()), 0);
    let text: String = lines.iter().map(|l| format!("{}\n", l)).collect();
    let off = resume_offset(&lines, &"cde".to_string());
    assert!(text[off..].starts_with("cde\n"));
}

#[test]
fn leader_messages_and_votes() {
    let l = Leader::new(3);
    assert_eq!(l.announcement(), DistMsg::NewLeader { id: 3 });
    assert_eq!(l.commit("t1".to_string()), DistMsg::Commit { transaction: "t1".to_string() });
    assert!(l.decide(&vec![Some(true), Some(true), Some(true)]));
    assert!(!l.decide(&vec![Some(true), Some(false), Some(true)]));
    assert!(!l.decide(&vec![Some(true), None, Some(true)]));
    assert!(l.decide(&Vec::new()));
    assert!(accepted(Some(true)));
    assert!(!accepted(Some(false)));
    assert!(!accepted(None));
}

#[test]
fn transmiter_tracks_votes() {
    let mut t = Transmiter::new();
    assert_eq!(t.prepare_response(), None);
    assert_eq!(t.prepare(transaction(8)), ExternalMsg::Prepare { transaction: transaction(8) });
    t.ack();
    assert_eq!(t.prepare_response(), Some(true));
    t.nack();
    assert_eq!(t.prepare_response(), Some(false));
    assert_eq!(t.stop_message(), ExternalMsg::Stop);
    assert_eq!(reply_event(&ExternalMsg::ACK { id: 1 }), ReplyEvent::Ack);
    assert_eq!(reply_event(&ExternalMsg::NACK { id: 1 }), ReplyEvent::Nack);
    assert_eq!(reply_event(&ExternalMsg::Stop), ReplyEvent::Stop);
    assert_eq!(reply_event(&ExternalMsg::Prepare { transaction: transaction(1) }), ReplyEvent::Ignore);
    assert_ne!(TransactionStatus::Ack, TransactionStatus::Waiting);
}

#[test]
fn bank_answers() {
    assert_eq!(bank_reply(&ExternalMsg::Prepare { transaction: transaction(12) }), Some(ExternalMsg::ACK { id: 12 }));
    assert_eq!(bank_reply(&ExternalMsg::Stop), Some(ExternalMsg::Stop));
    assert_eq!(bank_reply(&ExternalMsg::ACK { id: 1 }), None);
    assert_eq!(bank_reply(&ExternalMsg::NACK { id: 1 }), None);
}

#[test]
fn airline_answers() {
    assert_eq!(airline_reply(3, false, true), ExternalResponse::NACK);
    assert_eq!(airline_reply(4, false, true), ExternalResponse::ACK);
    assert_eq!(airline_reply(9, true, true), ExternalResponse::NACK);
    assert_eq!(airline_reply(9, false, false), ExternalResponse::NACK);
    for _ in 0..50 {
        assert_eq!(airline_answer(true, true), ExternalResponse::NACK);
        assert_eq!(airline_answer(false, false), ExternalResponse::NACK);
    }
    let mut acks = 0;
    let mut nacks = 0;
    for _ in 0..300 {
        match airline_answer(false, true) {
            ExternalResponse::ACK => acks += 1,
            ExternalResponse::NACK => nacks += 1,
        }
    }
    assert!(acks > 0 && nacks > 0);
}

#[test]
fn participant_answers_read() {
    assert!(reply_accepted(Some(ExternalResponse::ACK)));
    assert!(!reply_accepted(Some(ExternalResponse::NACK)));
    assert!(!reply_accepted(None));
}

#[test]
fn stats_count_runs() {
    let mut s = Stats::new();
    s.start_transaction();
    s.end_transaction(true);
    s.start_transaction();
    s.end_transaction(false);
    s.start_transaction();
    s.end_transaction(true);
    let r = s.stop();
    assert_eq!(r.total_runs, 3);
    assert_eq!(r.correct_runs, 2);
    assert_eq!(r.failed_runs, 1);
    assert!(r.average_millis <= r.total_millis);
    assert!(r.average_millis * 3 <= r.total_millis + 3);
}

#[test]
fn parsing_integers_like_std() {
    let cases = [
        "0", "7", "-7", "+7", "2147483647", "2147483648", "-2147483648", "-2147483649", "", "-", "+", "12a",
        " 1", "1 ", "00012", "-0", "99999999999999999999", "+-1", "٣",
    ];
    for c in cases.iter() {
        assert_eq!(parse_i32(c), c.parse::<i32>().ok(), "input {:?}", c);
    }
}

#[test]
fn framed_line_reads_back() {
    let text = "{\"Commit\":{\"transaction\":\"t\"}}".to_string();
    assert_eq!(trim_end(&frame(text.clone())), text);
    assert_eq!(trim_end(&frame(String::new())), "");
}

#[test]
fn split_fields_rejoin() {
    for s in ["1,2,3", "", ",", "a,,b", "no commas"].iter() {
        let fields = split_fields(s);
        assert_eq!(fields.join(","), *s);
        assert!(fields.iter().all(|f| !f.contains(',')));
    }
}

#[test]
fn stats_record_exact_runs() {
    let mut s = Stats::new();
    s.record(1_000_000, true);
    s.record(2_500_000, false);
    s.record(3_000_000, true);
    let r = s.stop();
    assert_eq!(r.total_runs, 3);
    assert_eq!(r.correct_runs, 2);
    assert_eq!(r.failed_runs, 1);
    assert_eq!(r.total_millis, 6);
    assert_eq!(r.average_millis, 2);
    let mut t = Stats::new();
    t.record(1_000_001, true);
    t.record(999_999, true);
    t.restart(actix::clock::Instant::now());
    assert_eq!(t.stop().average_millis, 1);
}
