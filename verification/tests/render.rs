use fee_alert::alerter::AlertEvent;
use fee_alert::alerter::AlertState;
use fee_alert::alerter::FeeData;
use fee_alert::render::render_alert;
use fee_alert::render::render_fee_summary;
use fee_alert::render::render_u64;

#[test]
fn decimal_rendering_is_exact() {
    assert_eq!(render_u64(0), "0");
    assert_eq!(render_u64(7), "7");
    assert_eq!(render_u64(10), "10");
    assert_eq!(render_u64(42), "42");
    assert_eq!(render_u64(600), "600");
    assert_eq!(render_u64(100_000), "100000");
    assert_eq!(render_u64(u64::MAX), "18446744073709551615");
}

#[test]
fn alert_text_below() {
    let event = AlertEvent { side: AlertState::BelowThreshold, metric: 3 };
    assert_eq!(
        render_alert(5, &event),
        "Les frais de transaction Bitcoin sont maintenant a 3 sat/vByte, \
         sous le seuil de 5 sat/vByte!"
    );
}

#[test]
fn alert_text_above() {
    let event = AlertEvent { side: AlertState::AboveThreshold, metric: 12 };
    assert_eq!(
        render_alert(5, &event),
        "Les frais de transaction Bitcoin sont maintenant a 12 sat/vByte, \
         au-dessus du seuil de 5 sat/vByte!"
    );
}

#[test]
fn fee_summary_text_is_exact() {
    let data = FeeData { fastest_fee: 17, half_hour_fee: 12, hour_fee: 9 };
    assert_eq!(
        render_fee_summary(&data, 5),
        "Frais de transaction actuels\n- Fastest Fee: 17 sat/vByte\n\
         - Half Hour Fee: 12 sat/vByte\n- Hour Fee: 9 sat/vByte\n\n\
         Alerte activee pour les frais <= 5 sat/vByte"
    );
}
