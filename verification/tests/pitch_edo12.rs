use fantazia::pitch::edo12::traits::{Co5Order, FromCo5Order, Qual};
use fantazia::pitch::edo12::{
    Acci, Interval, IntervalDeg, IntervalQual, OInterval, OIntervalDeg, OPitch, OStep, Pitch,
    Step,
};
use std::ops::Neg;

fn acci(src: &str) -> Acci {
    Acci::from_str(src).unwrap()
}

fn ostep(src: &str) -> OStep {
    OStep::from_str(src).unwrap()
}

fn opitch(src: &str) -> OPitch {
    OPitch::from_str(src).unwrap()
}

fn pitch(src: &str) -> Pitch {
    Pitch::from_str(src).unwrap()
}

fn ointerval(src: &str) -> OInterval {
    OInterval::from_str(src).unwrap()
}

fn interval(src: &str) -> Interval {
    Interval::from_str(src).unwrap()
}

#[test]
fn test_acci_display() {
    let accidentals = [
        Acci::from(-3), // triple flat
        Acci::from(-2), // double flat
        Acci::from(-1), // flat
        Acci::natural(), // natural
        acci("+"),      // sharp
        Acci::from(2),  // double sharp
        Acci::from(3),  // triple sharp
    ];
    accidentals
        .into_iter()
        .for_each(|acci| println!("{}", acci.to_string()));
    let texts: Vec<String> = accidentals.iter().map(|acci| acci.to_string()).collect();
    assert_eq!(texts, vec!["---", "--", "-", "[]", "+", "++", "+++"]);
}

#[test]
fn test_step_display() {
    let steps = [
        OStep::C,
        OStep::D,
        OStep::E,
        OStep::F,
        OStep::G,
        OStep::A,
        OStep::B,
        ostep("C"),
        ostep("D"),
        ostep("E"),
        ostep("F"),
        ostep("G"),
        ostep("A"),
        ostep("B"),
        ostep("C"),
        ostep("D"),
        ostep("E"),
        ostep("F"),
        ostep("G"),
        ostep("A"),
        ostep("B"),
        ostep("do"),
        ostep("ut"),
        ostep("re"),
        ostep("mi"),
        ostep("fa"),
        ostep("sol"),
        ostep("la"),
        ostep("si"),
        ostep("ti"),
    ];
    steps
        .into_iter()
        .for_each(|step| println!("{}", step.to_string()));
    let texts: Vec<String> = steps.iter().map(|step| step.to_string()).collect();
    assert_eq!(
        texts,
        vec![
            "C", "D", "E", "F", "G", "A", "B", "C", "D", "E", "F", "G", "A", "B", "C", "D", "E",
            "F", "G", "A", "B", "C", "C", "D", "E", "F", "G", "A", "B", "B",
        ]
    );
}

#[test]
fn test_opitch_parse() {
    println!("{}", opitch("F+").to_string());
    assert_eq!(opitch("F+"), OPitch::from_step_and_tone(OStep::F, 6));
    assert_eq!(opitch("F+").to_string(), "F+");
}

#[test]
fn test_opitch_arith() {
    println!("{}", (opitch("E") + opitch("E-")).to_string());
    println!("{}", (opitch("E-") + opitch("E-")).to_string());
    println!("{}", (opitch("E") + opitch("E")).to_string());
    assert_eq!(
        opitch("E") + opitch("E-"),
        OPitch::from_step_and_tone(OStep::G, 7)
    );
    assert_eq!(
        opitch("E-") + opitch("E-"),
        OPitch::from_step_and_tone(OStep::G, 6)
    );
    assert_eq!(
        opitch("E") + opitch("E"),
        OPitch::from_step_and_tone(OStep::G, 8)
    );
}

#[test]
fn test_ointerval_from_opitch() {
    let interval: OInterval = (opitch("D-") - opitch("E")).into();
    println!("{}", interval.to_string());
    assert_eq!(
        interval,
        OInterval::from_deg_and_qual(OIntervalDeg::Seventh, IntervalQual::Diminished(1))
    );
}

#[test]
fn test_co5_order() {
    let n_range = -14..=14;
    n_range.for_each(|n| {
        let p = <OPitch as FromCo5Order<i8>>::from_co5_order(n);
        println!("{} {}", n, p.to_string());
        assert_eq!(Co5Order::co5_order(p), n);
        assert_eq!(OPitch::g() * n, p);
    });
}

#[test]
fn test_ointerval_parsing() {
    let valid_intervals = [
        "P1", "m2", "M2", "m3", "M3", "P4", "A4", "d5", "P5", "m6", "M6", "m7", "M7",
    ];
    let invalid_intervals = ["M1", "m1", "P2", "P3", "M4", "m4", "M5", "m5", "P6", "P7"];
    for s in valid_intervals {
        assert!(OInterval::from_str(s).is_ok())
    }
    for s in invalid_intervals {
        assert!(OInterval::from_str(s).is_err())
    }
}

#[test]
fn test_ointerval_arith() {
    assert_eq!(ointerval("M3") + ointerval("m3"), ointerval("P5"));
    assert_eq!(ointerval("M3") - ointerval("m3"), ointerval("A1"));
    assert_eq!(ointerval("m3") - ointerval("M3"), ointerval("d1"));
    assert_eq!(-ointerval("M3"), ointerval("m6"));
}

#[test]
fn test_interval_from_pitch() {
    let interval: Interval = pitch("E_-1").into();
    println!("{}", interval.to_string());
    assert_eq!(interval.deg(), IntervalDeg(-5));
    assert_eq!(interval.qual(), IntervalQual::Major);
}

#[test]
fn test_interval() {
    println!("{}", interval("M3").neg().to_string());
    assert_eq!(interval("M3").neg().deg(), IntervalDeg(-2));
    assert_eq!(interval("M3").neg().qual(), IntervalQual::Minor);
    assert_eq!((-interval("M3")).to_string(), "-M3");
}

#[test]
fn test_pitch_arith() {
    println!("{}", (pitch("E_0") + pitch("E-_0")).to_string());
    assert_eq!(
        pitch("E_0") + pitch("E-_0"),
        Pitch::from_step_and_tone(Step(4), 7)
    );
    assert_eq!((pitch("E_0") + pitch("E-_0")).to_string(), "G_0");
}

#[test]
fn test_opitch_scalar_mul() {
    let p = opitch("E");
    println!("{}", (p * 2).to_string());
    assert_eq!(p * 2, OPitch::from_step_and_tone(OStep::G, 8));
}
