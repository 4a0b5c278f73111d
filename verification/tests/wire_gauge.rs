use pcb_toolkit::wire_gauge::{awg, list_awg, Awg};

#[test]
fn list_awg_has_every_label_thickest_first() {
    let labels = list_awg();
    assert_eq!(labels.len(), 44);
    assert!(labels.iter().any(|l| l == "4/0"));
    assert_eq!(labels[0], "4/0");
    assert_eq!(labels[1], "3/0");
    assert_eq!(labels[2], "2/0");
    assert_eq!(labels[3], "1/0");
    assert_eq!(labels[4], "1");
    assert_eq!(labels[12], "9");
    assert_eq!(labels[13], "10");
    assert_eq!(labels[25], "22");
    assert_eq!(labels[43], "40");
    for (i, a) in labels.iter().enumerate() {
        for b in labels.iter().skip(i + 1) {
            assert_ne!(a, b);
        }
    }
}

#[test]
fn all_gauges_in_order() {
    let all = Awg::all();
    assert_eq!(all.len(), 44);
    for (i, a) in all.iter().enumerate() {
        assert_eq!(a.gauge_number() as i64, i as i64 - 3);
    }
    assert_eq!(all[0].label(), "4/0");
    assert_eq!(all[43].label(), "40");
}

#[test]
fn awg_finds_every_label() {
    for a in Awg::all() {
        assert_eq!(awg(&a.label()), Ok(a));
    }
}

#[test]
fn awg_accepts_prefix_case_and_padding() {
    let g22 = awg("22").unwrap();
    assert_eq!(g22.gauge_number(), 22);
    assert_eq!(awg("AWG 22"), Ok(g22));
    assert_eq!(awg("awg22"), Ok(g22));
    assert_eq!(awg("  Awg  22 "), Ok(g22));
    assert_eq!(awg("4/0").unwrap().gauge_number(), -3);
    assert_eq!(awg("awg 1/0").unwrap().gauge_number(), 0);
}

#[test]
fn awg_rejects_unknown_with_raw_text() {
    assert_eq!(awg("41"), Err("unknown AWG gauge `41`".to_string()));
    assert_eq!(awg("022"), Err("unknown AWG gauge `022`".to_string()));
    assert_eq!(awg(" 5/0"), Err("unknown AWG gauge ` 5/0`".to_string()));
    assert_eq!(awg("0"), Err("unknown AWG gauge `0`".to_string()));
    assert_eq!(awg(""), Err("unknown AWG gauge ``".to_string()));
}
