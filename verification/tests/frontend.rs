use ocpp_session::clock::Span;
use ocpp_session::clock::Timestamp;
use ocpp_session::engy_types::EnergyState;
use ocpp_session::error::MessageKind;
use ocpp_session::error::OcppError;
use ocpp_session::frontend::authorize_request;
use ocpp_session::frontend::authorize_response;
use ocpp_session::frontend::boot_plan;
use ocpp_session::frontend::engy_event_action;
use ocpp_session::frontend::engy_state_request;
use ocpp_session::frontend::heartbeat_request;
use ocpp_session::frontend::heartbeat_response;
use ocpp_session::frontend::meter_report;
use ocpp_session::frontend::meter_values_response;
use ocpp_session::frontend::monitor_event_cb;
use ocpp_session::frontend::ocpp_bootstrap;
use ocpp_session::frontend::start_query;
use ocpp_session::frontend::status_notification_rqt;
use ocpp_session::frontend::status_notification_rsp;
use ocpp_session::frontend::status_report;
use ocpp_session::frontend::stop_query;
use ocpp_session::frontend::subscribe_callback;
use ocpp_session::frontend::timer_cb;
use ocpp_session::frontend::transac_start_rsp;
use ocpp_session::frontend::transac_stop_rsp;
use ocpp_session::frontend::transaction_query;
use ocpp_session::frontend::transaction_request;
use ocpp_session::frontend::update_charger_status;
use ocpp_session::frontend::HeartbeatRspCtx;
use ocpp_session::frontend::TransactionQuery;
use ocpp_session::manager::ManagerHandle;
use ocpp_session::manager::Subscription;
use ocpp_session::ocpp_types::OcppErrorCode;
use ocpp_session::ocpp_types::OcppMsg;
use ocpp_session::ocpp_types::OcppStatus;
use ocpp_session::ocpp_types::OcppTransaction;
use ocpp_session::v106;

const NOW: Timestamp = Timestamp { secs: 1_700_000_000, nanos: 42 };

fn snapshot() -> EnergyState {
    EnergyState {
        subscription_max: 0,
        umax: 0,
        imax: 0,
        pmax: 0,
        volts: 0,
        timestamp: Span { secs: 0, nanos: 0 },
        session: 102400,
        total: 0,
        current: 1500,
        tension: 24000,
        power: 2200,
    }
}

fn tag_info(status: v106::AuthorizationStatus) -> v106::IdTagInfo {
    v106::IdTagInfo { expiry_date: None, parent_id_tag: None, status }
}

fn sample(value: &str, unit: v106::UnitOfMeasure, measurand: v106::Measurand) -> v106::SampledValue {
    v106::SampledValue { value: value.to_string(), measurand: Some(measurand), unit: Some(unit) }
}

#[test]
fn meter_report_carries_the_four_figures() {
    let report = meter_report(&snapshot(), 1, 99, NOW).unwrap();
    assert_eq!(
        report,
        v106::MeterValuesRequest {
            connector_id: 1,
            transaction_id: Some(99),
            meter_value: vec![v106::MeterValue {
                timestamp: NOW,
                sampled_value: vec![
                    sample("240", v106::UnitOfMeasure::V, v106::Measurand::Voltage),
                    sample("15", v106::UnitOfMeasure::A, v106::Measurand::CurrentImport),
                    sample("22", v106::UnitOfMeasure::W, v106::Measurand::PowerActiveImport),
                    sample(
                        "1024000",
                        v106::UnitOfMeasure::Wh,
                        v106::Measurand::EnergyActiveImportRegister,
                    ),
                ],
            }],
        }
    );
}

#[test]
fn meter_report_without_transaction_fails() {
    assert_eq!(meter_report(&snapshot(), 1, 0, NOW), Err(OcppError::NoActiveTransaction));
}

#[test]
fn meter_report_rounds_toward_zero_and_does_not_overflow() {
    let mut state = snapshot();
    state.tension = -24050;
    state.current = 199;
    state.power = -99;
    state.session = i32::MAX;
    let report = meter_report(&state, 2, -5, NOW).unwrap();
    let values: Vec<String> =
        report.meter_value[0].sampled_value.iter().map(|s| s.value.clone()).collect();
    assert_eq!(values, vec!["-240", "1", "0", "21474836470"]);
    assert_eq!(report.transaction_id, Some(-5));
}

#[test]
fn engy_event_action_uses_the_session() {
    let mut mgr = ManagerHandle::new(4);
    assert_eq!(engy_event_action(&snapshot(), &mgr), Err(OcppError::NoActiveTransaction));
    mgr.login(99);
    let report = engy_event_action(&snapshot(), &mgr).unwrap();
    let at = report.meter_value[0].timestamp;
    assert_eq!(report, meter_report(&snapshot(), 4, 99, at).unwrap());
    assert!(at.secs > 1_600_000_000);
}

#[test]
fn engy_state_request_adds_the_charging_notification() {
    let mut mgr = ManagerHandle::new(4);
    assert_eq!(engy_state_request(&snapshot(), &mgr), Err(OcppError::NoActiveTransaction));
    mgr.login(99);
    let push = engy_state_request(&snapshot(), &mgr).unwrap();
    let at = push.meter_values.meter_value[0].timestamp;
    assert_eq!(push.meter_values, meter_report(&snapshot(), 4, 99, at).unwrap());
    assert_eq!(push.status.connector_id, 1);
    assert_eq!(push.status.status, v106::ChargePointStatus::Charging);
    assert_eq!(push.status.error_code, v106::ChargePointErrorCode::NoError);
    assert_eq!(push.status.info, Some("Tux-Evse refresh report".to_string()));
    assert!(push.status.timestamp.is_some());
    assert_eq!(push.status.vendor_id, None);
    assert_eq!(push.status.vendor_error_code, None);
}

#[test]
fn boot_plan_announces_the_station() {
    let plan = boot_plan("tux-evse", 5000, NOW);
    assert_eq!(
        plan.boot,
        v106::BootNotificationRequest {
            charge_box_serial_number: None,
            charge_point_model: "Tux-Evse OCPP-1.6".to_string(),
            charge_point_serial_number: None,
            charge_point_vendor: "tux-evse".to_string(),
            firmware_version: Some("v1234".to_string()),
            iccid: None,
            imsi: None,
            meter_serial_number: None,
            meter_type: None,
        }
    );
    assert_eq!(
        plan.status,
        v106::StatusNotificationRequest {
            connector_id: 1,
            error_code: v106::ChargePointErrorCode::NoError,
            info: Some("Tux-Evse booting report".to_string()),
            status: v106::ChargePointStatus::Available,
            timestamp: Some(NOW),
            vendor_id: None,
            vendor_error_code: None,
        }
    );
    assert_eq!(plan.heartbeat, v106::HeartbeatRequest {});
    assert_eq!(plan.timer_period, Some(5000));
}

#[test]
fn boot_plan_without_tic_has_no_timer() {
    assert_eq!(boot_plan("s", 0, NOW).timer_period, None);
    assert_eq!(boot_plan("s", 1, NOW).timer_period, Some(1));
}

#[test]
fn ocpp_bootstrap_reads_the_clock() {
    let plan = ocpp_bootstrap("station-7", 250).unwrap();
    let at = plan.status.timestamp.unwrap();
    assert!(at.secs > 1_600_000_000);
    assert_eq!(plan, boot_plan("station-7", 250, at));
}

#[test]
fn status_report_of_a_fault() {
    let report = status_report(3, &OcppStatus::Error(OcppErrorCode::OverVoltage), NOW);
    assert_eq!(
        report,
        v106::StatusNotificationRequest {
            connector_id: 3,
            error_code: v106::ChargePointErrorCode::OverVoltage,
            info: None,
            status: v106::ChargePointStatus::Faulted,
            timestamp: Some(NOW),
            vendor_id: None,
            vendor_error_code: None,
        }
    );
}

#[test]
fn update_charger_status_uses_the_connector_of_the_manager() {
    let mgr = ManagerHandle::new(8);
    let report = update_charger_status(&mgr, &OcppStatus::Preparing).unwrap();
    let at = report.timestamp.unwrap();
    assert_eq!(report, status_report(8, &OcppStatus::Preparing, at));
    assert_eq!(report.status, v106::ChargePointStatus::Preparing);
    assert_eq!(report.error_code, v106::ChargePointErrorCode::NoError);
}

#[test]
fn status_notification_rqt_records_the_status() {
    let mut mgr = ManagerHandle::new(8);
    let report = status_notification_rqt(&mut mgr, &OcppStatus::Charging).unwrap();
    assert_eq!(mgr.get_status(), OcppStatus::Charging);
    assert_eq!(report.status, v106::ChargePointStatus::Charging);
    assert_eq!(report.connector_id, 8);
    assert!(mgr.take_events().is_empty());
}

#[test]
fn monitor_event_repeats_the_recorded_status() {
    let mut mgr = ManagerHandle::new(2);
    mgr.set_status(&OcppStatus::Error(OcppErrorCode::WeakSignal));
    let report = monitor_event_cb(&mgr).unwrap();
    assert_eq!(report.status, v106::ChargePointStatus::Faulted);
    assert_eq!(report.error_code, v106::ChargePointErrorCode::WeakSignal);
    assert_eq!(report.connector_id, 2);
}

#[test]
fn timer_notifies_only_while_available() {
    let mut mgr = ManagerHandle::new(2);
    let report = timer_cb(&mgr).unwrap().unwrap();
    assert_eq!(report.status, v106::ChargePointStatus::Available);
    assert_eq!(report.error_code, v106::ChargePointErrorCode::NoError);
    assert_eq!(report.connector_id, 2);
    for status in [
        OcppStatus::Charging,
        OcppStatus::Reserved,
        OcppStatus::Unavailable,
        OcppStatus::Finishing,
        OcppStatus::Preparing,
        OcppStatus::Error(OcppErrorCode::NoError),
    ] {
        mgr.set_status(&status);
        assert_eq!(timer_cb(&mgr), Ok(None));
    }
}

#[test]
fn heartbeat_request_keeps_the_nonce() {
    let (query, ctx) = heartbeat_request(123456789);
    assert_eq!(query, v106::Heartbeat::Request(v106::HeartbeatRequest {}));
    assert_eq!(ctx, HeartbeatRspCtx { nonce: 123456789 });
}

#[test]
fn heartbeat_response_answers_the_nonce() {
    let ctx = HeartbeatRspCtx { nonce: 987654321 };
    let reply = v106::Heartbeat::Response(v106::HeartbeatResponse { current_time: NOW });
    assert_eq!(heartbeat_response(&reply, &ctx), Ok(987654321));
    let echo = v106::Heartbeat::Request(v106::HeartbeatRequest {});
    assert_eq!(
        heartbeat_response(&echo, &ctx),
        Err(OcppError::UnexpectedVariant { kind: MessageKind::Heartbeat })
    );
}

#[test]
fn authorize_request_wraps_the_tag() {
    assert_eq!(
        authorize_request("tag-1".to_string()),
        v106::Authorize::Request(v106::AuthorizeRequest { id_tag: "tag-1".to_string() })
    );
}

#[test]
fn authorize_response_accepted_marks_the_session() {
    let mut mgr = ManagerHandle::new(1);
    let reply = v106::Authorize::Response(v106::AuthorizeResponse {
        id_tag_info: tag_info(v106::AuthorizationStatus::Accepted),
    });
    assert_eq!(authorize_response(&mut mgr, &reply), Ok(()));
    assert!(mgr.get_state().authorized);
    assert_eq!(mgr.take_events(), vec![OcppMsg::Authorized(true)]);
}

#[test]
fn authorize_response_refused_changes_nothing() {
    for status in [
        v106::AuthorizationStatus::Blocked,
        v106::AuthorizationStatus::Expired,
        v106::AuthorizationStatus::Invalid,
        v106::AuthorizationStatus::ConcurrentTx,
    ] {
        let mut mgr = ManagerHandle::new(1);
        let reply =
            v106::Authorize::Response(v106::AuthorizeResponse { id_tag_info: tag_info(status) });
        assert_eq!(
            authorize_response(&mut mgr, &reply),
            Err(OcppError::AuthorizationRefused { status })
        );
        assert!(!mgr.get_state().authorized);
        assert!(mgr.take_events().is_empty());
    }
}

#[test]
fn authorize_response_rejects_an_echoed_request() {
    let mut mgr = ManagerHandle::new(1);
    let echo = authorize_request("tag-1".to_string());
    assert_eq!(
        authorize_response(&mut mgr, &echo),
        Err(OcppError::UnexpectedVariant { kind: MessageKind::Authorize })
    );
    assert!(!mgr.get_state().authorized);
    assert!(mgr.take_events().is_empty());
}

#[test]
fn start_and_stop_queries() {
    assert_eq!(
        start_query(3, &"tag-1".to_string(), NOW),
        v106::StartTransactionRequest {
            connector_id: 3,
            id_tag: "tag-1".to_string(),
            meter_start: 0,
            reservation_id: None,
            timestamp: NOW,
        }
    );
    assert_eq!(
        stop_query(500, 1234, NOW),
        v106::StopTransactionRequest {
            id_tag: None,
            meter_stop: 1234,
            timestamp: NOW,
            transaction_id: 500,
        }
    );
}

#[test]
fn transaction_query_start_needs_a_free_connector() {
    let mut mgr = ManagerHandle::new(3);
    let start = OcppTransaction::Start("tag-1".to_string());
    assert_eq!(
        transaction_query(&mgr, &start, NOW),
        Ok(TransactionQuery::Start(start_query(3, &"tag-1".to_string(), NOW)))
    );
    mgr.login(500);
    assert_eq!(
        transaction_query(&mgr, &start, NOW),
        Err(OcppError::SessionAlreadyActive { tid: 500 })
    );
    assert_eq!(mgr.get_tid(), 500);
}

#[test]
fn transaction_query_stop_needs_a_running_transaction() {
    let mut mgr = ManagerHandle::new(3);
    let stop = OcppTransaction::Stop(1234);
    assert_eq!(transaction_query(&mgr, &stop, NOW), Err(OcppError::NoActiveSession));
    mgr.login(500);
    assert_eq!(
        transaction_query(&mgr, &stop, NOW),
        Ok(TransactionQuery::Stop(stop_query(500, 1234, NOW)))
    );
    assert_eq!(mgr.get_tid(), 500);
}

#[test]
fn transaction_request_reads_the_clock() {
    let mut mgr = ManagerHandle::new(3);
    let start = OcppTransaction::Start("tag-1".to_string());
    match transaction_request(&mgr, &start).unwrap() {
        TransactionQuery::Start(query) => {
            assert!(query.timestamp.secs > 1_600_000_000);
            assert_eq!(query, start_query(3, &"tag-1".to_string(), query.timestamp));
        }
        TransactionQuery::Stop(_) => panic!("a start was asked for"),
    }
    assert_eq!(
        transaction_request(&mgr, &OcppTransaction::Stop(7)),
        Err(OcppError::NoActiveSession)
    );
    mgr.login(9);
    assert_eq!(
        transaction_request(&mgr, &start),
        Err(OcppError::SessionAlreadyActive { tid: 9 })
    );
}

#[test]
fn transac_start_rsp_logs_in() {
    let mut mgr = ManagerHandle::new(1);
    let reply = v106::StartTransaction::Response(v106::StartTransactionResponse {
        id_tag_info: tag_info(v106::AuthorizationStatus::Accepted),
        transaction_id: 500,
    });
    assert_eq!(transac_start_rsp(&mut mgr, &reply), Ok(500));
    assert_eq!(mgr.get_tid(), 500);
    assert_eq!(mgr.take_events(), vec![OcppMsg::Transaction(true, 500)]);
}

#[test]
fn transac_start_rsp_refused_changes_nothing() {
    let mut mgr = ManagerHandle::new(1);
    let reply = v106::StartTransaction::Response(v106::StartTransactionResponse {
        id_tag_info: tag_info(v106::AuthorizationStatus::ConcurrentTx),
        transaction_id: 500,
    });
    assert_eq!(
        transac_start_rsp(&mut mgr, &reply),
        Err(OcppError::TransactionRefused { status: v106::AuthorizationStatus::ConcurrentTx })
    );
    assert_eq!(mgr.get_tid(), 0);
    let echo = v106::StartTransaction::Request(start_query(1, &"t".to_string(), NOW));
    assert_eq!(
        transac_start_rsp(&mut mgr, &echo),
        Err(OcppError::UnexpectedVariant { kind: MessageKind::StartTransaction })
    );
    assert_eq!(mgr.get_tid(), 0);
    assert!(mgr.take_events().is_empty());
}

#[test]
fn transac_stop_rsp_logs_out() {
    let mut mgr = ManagerHandle::new(1);
    mgr.login(500);
    mgr.take_events();
    let echo = v106::StopTransaction::Request(stop_query(500, 1234, NOW));
    assert_eq!(
        transac_stop_rsp(&mut mgr, &echo),
        Err(OcppError::UnexpectedVariant { kind: MessageKind::StopTransaction })
    );
    assert_eq!(mgr.get_tid(), 500);
    let reply =
        v106::StopTransaction::Response(v106::StopTransactionResponse { id_tag_info: None });
    assert_eq!(transac_stop_rsp(&mut mgr, &reply), Ok(()));
    assert_eq!(mgr.get_tid(), 0);
    assert_eq!(mgr.take_events(), vec![OcppMsg::Transaction(false, 500)]);
}

#[test]
fn replies_have_to_be_responses() {
    assert_eq!(
        meter_values_response(&v106::MeterValues::Response(v106::MeterValuesResponse {})),
        Ok(())
    );
    let report = meter_report(&snapshot(), 1, 99, NOW).unwrap();
    assert_eq!(
        meter_values_response(&v106::MeterValues::Request(report)),
        Err(OcppError::UnexpectedVariant { kind: MessageKind::MeterValues })
    );
    assert_eq!(
        status_notification_rsp(&v106::StatusNotification::Response(
            v106::StatusNotificationResponse {}
        )),
        Ok(())
    );
    assert_eq!(
        status_notification_rsp(&v106::StatusNotification::Request(status_report(
            1,
            &OcppStatus::Available,
            NOW
        ))),
        Err(OcppError::UnexpectedVariant { kind: MessageKind::StatusNotification })
    );
}

#[test]
fn subscribe_callback_passes_the_wish_on() {
    let mgr = ManagerHandle::new(1);
    assert_eq!(subscribe_callback(&mgr, true), Subscription::Subscribe);
    assert_eq!(subscribe_callback(&mgr, false), Subscription::Unsubscribe);
}
