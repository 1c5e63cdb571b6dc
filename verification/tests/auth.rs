use antisupport::auth::{
    activate, activate_result, deactivate, default_interval, default_ttl, heartbeat,
    heartbeat_result, net_err, ActivateFields, ActivateResponse, Exchange, HeartbeatFields,
    HeartbeatResponse,
};

fn bare_activation(success: bool) -> ActivateResponse {
    ActivateResponse::from_fields(ActivateFields {
        success,
        message: None,
        token: None,
        plan_name: None,
        expiry_date: None,
        days_left: None,
        session_ttl: None,
        heartbeat_interval: None,
    })
}

fn bare_heartbeat(success: bool) -> HeartbeatResponse {
    HeartbeatResponse::from_fields(HeartbeatFields {
        success,
        message: None,
        expiry_date: None,
        days_left: None,
        heartbeat_interval: None,
    })
}

#[test]
fn defaults() {
    assert_eq!(default_ttl(), 300);
    assert_eq!(default_interval(), 120);
}

#[test]
fn missing_fields_get_their_defaults() {
    let reply = bare_activation(true);
    assert!(reply.success);
    assert_eq!(reply.message, "");
    assert_eq!(reply.token, "");
    assert_eq!(reply.plan_name, "");
    assert_eq!(reply.expiry_date, "");
    assert_eq!(reply.days_left, 0);
    assert_eq!(reply._session_ttl, 300);
    assert_eq!(reply.heartbeat_interval, 120);

    let reply = bare_heartbeat(false);
    assert!(!reply.success);
    assert_eq!(reply.message, "");
    assert_eq!(reply.expiry_date, "");
    assert_eq!(reply.days_left, 0);
    assert_eq!(reply.heartbeat_interval, 120);
}

#[test]
fn given_fields_are_kept() {
    let reply = ActivateResponse::from_fields(ActivateFields {
        success: true,
        message: Some("hi".to_string()),
        token: Some("t".to_string()),
        plan_name: Some("Pro".to_string()),
        expiry_date: Some("2027-01-01".to_string()),
        days_left: Some(-3),
        session_ttl: Some(1),
        heartbeat_interval: Some(2),
    });
    assert_eq!(reply.message, "hi");
    assert_eq!(reply.token, "t");
    assert_eq!(reply.plan_name, "Pro");
    assert_eq!(reply.expiry_date, "2027-01-01");
    assert_eq!(reply.days_left, -3);
    assert_eq!(reply._session_ttl, 1);
    assert_eq!(reply.heartbeat_interval, 2);

    let reply = HeartbeatResponse::from_fields(HeartbeatFields {
        success: true,
        message: Some("hi".to_string()),
        expiry_date: Some("2027-01-01".to_string()),
        days_left: Some(4),
        heartbeat_interval: Some(60),
    });
    assert_eq!(reply.message, "hi");
    assert_eq!(reply.expiry_date, "2027-01-01");
    assert_eq!(reply.days_left, 4);
    assert_eq!(reply.heartbeat_interval, 60);
}

#[test]
fn requests_name_their_addresses() {
    let post = activate("u", "p", "h");
    assert_eq!(post.url, "https://hetcuu.com/antisupport/api/activate");
    assert_eq!(post.body.username, "u");
    assert_eq!(post.body.password, "p");
    assert_eq!(post.body.hwid, "h");

    let post = heartbeat("t");
    assert_eq!(post.url, "https://hetcuu.com/antisupport/api/heartbeat");
    assert_eq!(post.body.token, "t");

    let post = deactivate("t".to_string());
    assert_eq!(post.url, "https://hetcuu.com/antisupport/api/deactivate");
    assert_eq!(post.body.token, "t");
}

#[test]
fn failures_in_words() {
    assert_eq!(net_err(true, false), "Hết thời gian kết nối. Kiểm tra mạng và thử lại.");
    assert_eq!(net_err(true, true), "Hết thời gian kết nối. Kiểm tra mạng và thử lại.");
    assert_eq!(net_err(false, true), "Không thể kết nối đến máy chủ. Kiểm tra kết nối mạng.");
    assert_eq!(net_err(false, false), "Lỗi mạng. Vui lòng thử lại.");
}

#[test]
fn activation_outcomes() {
    assert_eq!(
        activate_result(Exchange::NoClient).err(),
        Some("Không khởi tạo được HTTP client.".to_string())
    );
    assert_eq!(
        activate_result(Exchange::Failed { timeout: false, connect: false }).err(),
        Some("Lỗi mạng. Vui lòng thử lại.".to_string())
    );
    assert_eq!(
        activate_result(Exchange::Unreadable).err(),
        Some("Phản hồi từ máy chủ không hợp lệ.".to_string())
    );
    assert!(activate_result(Exchange::Answer(bare_activation(true))).unwrap().success);
    assert!(!activate_result(Exchange::Answer(bare_activation(false))).unwrap().success);
}

#[test]
fn heartbeat_outcomes() {
    assert_eq!(
        heartbeat_result(Exchange::NoClient).err(),
        Some("Không khởi tạo được HTTP client.".to_string())
    );
    assert_eq!(
        heartbeat_result(Exchange::Failed { timeout: true, connect: false }).err(),
        Some("Hết thời gian kết nối. Kiểm tra mạng và thử lại.".to_string())
    );
    assert_eq!(
        heartbeat_result(Exchange::Unreadable).err(),
        Some("Phản hồi heartbeat không hợp lệ.".to_string())
    );
    assert!(heartbeat_result(Exchange::Answer(bare_heartbeat(true))).unwrap().success);
}
