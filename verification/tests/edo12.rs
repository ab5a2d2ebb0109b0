use fantazia::pitch::edo12::traits::Qual;
use fantazia::pitch::edo12::{
    Acci, Interval, IntervalDeg, IntervalQual, OInterval, OIntervalDeg, OPitch, OStep, Pitch,
};

fn opitch(src: &str) -> OPitch {
    OPitch::from_str(src).unwrap()
}

#[test]
fn edo12_test_acci_display() {
    let accidentals = [
        Acci(-3), // triple flat
        Acci(-2), // double flat
        Acci(-1), // flat
        Acci(0),  // natural
        Acci(1),  // sharp
        Acci(2),  // double sharp
        Acci(3),  // triple sharp
    ];
    accidentals
        .into_iter()
        .for_each(|acci| println!("{}", acci.to_string()));
    let texts: Vec<String> = accidentals.iter().map(|acci| acci.to_string()).collect();
    assert_eq!(texts, vec!["---", "--", "-", "[]", "+", "++", "+++"]);
}

#[test]
fn edo12_test_step_display() {
    let steps = [
        OStep::C,
        OStep::D,
        OStep::E,
        OStep::F,
        OStep::G,
        OStep::A,
        OStep::B,
    ];
    steps
        .into_iter()
        .for_each(|step| println!("{}", step.to_string()));
    let texts: Vec<String> = steps.iter().map(|step| step.to_string()).collect();
    assert_eq!(texts, vec!["C", "D", "E", "F", "G", "A", "B"]);
}

#[test]
fn edo12_test_opitch_parse() {
    println!("{}", OPitch::from_str("F+").unwrap().to_string());
    assert_eq!(
        OPitch::from_str("F+").unwrap(),
        OPitch::from_step_and_tone(OStep::F, 6)
    );
}

#[test]
fn edo12_test_opitch_arith() {
    println!("{}", (opitch("E") + opitch("E-")).to_string());
    println!("{}", (opitch("E-") + opitch("E-")).to_string());
    println!("{}", (opitch("E") + opitch("E")).to_string());
    assert_eq!((opitch("E") + opitch("E-")).to_string(), "G");
    assert_eq!((opitch("E-") + opitch("E-")).to_string(), "G-");
    assert_eq!((opitch("E") + opitch("E")).to_string(), "G+");
}

#[test]
fn edo12_test_interval() {
    let interval: OInterval = (opitch("D-") - opitch("E")).into();
    println!("{}", interval.to_string());
    assert_eq!(interval.deg(), OIntervalDeg::Seventh);
    assert_eq!(interval.qual(), IntervalQual::Diminished(1));
    assert_eq!(interval.to_string(), "d7");
}

#[test]
fn test_from_co5_order() {
    let n_range = -14..=14;
    n_range.for_each(|n| {
        let p = OPitch::from_co5_order(n);
        println!("{} {}", n, p.to_string());
        assert_eq!(p.co5_order(), n);
    });
}

#[test]
fn test_interval_parsing() {
    let valid_intervals = [
        "P1", "m2", "M2", "m3", "M3", "P4", "A4", "d5", "P5", "m6", "M6", "m7", "M7",
    ];
    let invalid_intervals = ["M1", "m1", "P2", "P3", "M4", "m4", "M5", "m5", "P6", "P7"];
    for s in valid_intervals {
        assert!(OInterval::from_str(s).is_ok())
    }
    for s in invalid_intervals {
        assert!(OInterval::from_str(s).is_err())
    }
}

#[test]
fn test_compound_interval() {
    let interval: Interval = Pitch::from_str("E_-1").unwrap().into();
    println!("{}", interval.to_string());
    assert_eq!(interval.deg(), IntervalDeg(-5));
    assert_eq!(interval.qual(), IntervalQual::Major);
    assert_eq!(interval.to_string(), "-m6");
}
