use juge_launcher::auth::{
    classify_token_poll, expiry_timestamp, identity_token, Account, AccountType, AuthError,
};
use juge_launcher::error::LauncherError;
use juge_launcher::auth::{login_error_message, xsts_error_message};
use juge_launcher::launcher::launch_preferences;
use juge_launcher::profiles::Profile;
use juge_launcher::settings::Settings;

#[test]
fn offline_accounts_get_uuid_and_dummy_token() {
    let a = Account::new_offline("Steve");
    assert_eq!(a.name, "Steve");
    assert_eq!(a.uuid.len(), 36);
    assert_eq!(a.access_token.as_deref(), Some("0"));
    assert!(a.refresh_token.is_none());
    assert_eq!(a.account_type, AccountType::Offline);
    let b = Account::new_offline("Steve");
    assert_ne!(a.uuid, b.uuid);
}

#[test]
fn token_poll_classifies_the_grant_state() {
    assert!(matches!(
        classify_token_poll(400, "{\"error\":\"authorization_pending\"}"),
        Some(AuthError::Pending)
    ));
    assert!(matches!(
        classify_token_poll(400, "{\"error\":\"expired_token\"}"),
        Some(AuthError::Expired)
    ));
    assert!(matches!(
        classify_token_poll(400, "{\"error\":\"access_denied\"}"),
        Some(AuthError::Denied)
    ));
    match classify_token_poll(500, "boom") {
        Some(AuthError::Protocol(m)) => assert_eq!(m, "HTTP 500: boom"),
        other => panic!("expected a protocol error, got {:?}", other),
    }
    match classify_token_poll(400, "{\"error\":\"invalid_client\"}") {
        Some(AuthError::Protocol(m)) => {
            assert_eq!(m, "HTTP 400: {\"error\":\"invalid_client\"}")
        }
        other => panic!("expected a protocol error, got {:?}", other),
    }
    assert!(classify_token_poll(200, "{\"access_token\":\"x\"}").is_none());
}

#[test]
fn identity_token_formats_the_xbox_header() {
    assert_eq!(identity_token("hash", "tok"), "XBL3.0 x=hash;tok");
}

#[test]
fn expiry_adds_and_clamps() {
    assert_eq!(expiry_timestamp(1_000, 3_600), 4_600);
    assert_eq!(expiry_timestamp(i64::MAX - 5, 10), i64::MAX);
    assert_eq!(expiry_timestamp(-100, 50), -50);
}

#[test]
fn auth_error_messages_name_each_state() {
    assert_eq!(AuthError::Pending.message(), "Authorization pending");
    assert_eq!(AuthError::Expired.message(), "Authorization expired");
    assert_eq!(AuthError::Denied.message(), "Authorization denied");
    assert_eq!(
        AuthError::Network("timed out".to_string()).message(),
        "Network error: timed out"
    );
    assert_eq!(
        AuthError::Protocol("bad body".to_string()).message(),
        "Protocol error: bad body"
    );
    assert_eq!(
        AuthError::Unexpected("odd".to_string()).message(),
        "Unexpected error: odd"
    );
}

#[test]
fn xsts_error_codes_map_to_their_messages() {
    assert_eq!(
        xsts_error_message(2148916233),
        "Tu cuenta no tiene un perfil de Xbox. Por favor, crea uno en xbox.com."
    );
    assert_eq!(
        xsts_error_message(2148916235),
        "Tu cuenta no tiene acceso a Xbox Live en esta región."
    );
    assert_eq!(
        xsts_error_message(2148916238),
        "Tu cuenta es de un menor de edad. Necesitas que un adulto la añada a una familia de Microsoft."
    );
    assert_eq!(xsts_error_message(0), "Error en la autorización de Xbox (XSTS).");
}

#[test]
fn login_error_tags_map_to_their_messages() {
    assert_eq!(
        login_error_message("NOT_FOUND"),
        "Tu cuenta no parece tener Minecraft comprado."
    );
    assert_eq!(
        login_error_message("CONSTRAINT_VIOLATION"),
        "Error de validación (CONSTRAINT_VIOLATION). Revisa que el token XSTS sea para Minecraft."
    );
    assert_eq!(
        login_error_message("oops Invalid app registration oops"),
        "Error: Aplicación no registrada para Minecraft. Revisa los permisos en Azure."
    );
    assert_eq!(
        login_error_message("SOMETHING_ELSE"),
        "Error al iniciar sesión en los servicios de Minecraft."
    );
}

#[test]
fn launch_preferences_prefer_the_profile() {

    let settings = Settings::default();
    let prefs = launch_preferences(None, &settings);
    assert_eq!(prefs.min_memory, 1024);
    assert_eq!(prefs.max_memory, 4096);
    assert_eq!(prefs.java_args, "-XX:+UseG1GC");
    assert!(prefs.java_path.is_none());

    let mut profile = Profile::default();
    profile.min_memory = 2048;
    profile.max_memory = 8192;
    profile.width = 1920;
    profile.height = 1080;
    profile.java_args = "-Xshare:off".to_string();
    profile.java_path = Some("/opt/jdk/bin/java".to_string());
    let prefs = launch_preferences(Some(&profile), &settings);
    assert_eq!(prefs.min_memory, 2048);
    assert_eq!(prefs.max_memory, 8192);
    assert_eq!(prefs.width, 1920);
    assert_eq!(prefs.height, 1080);
    assert_eq!(prefs.java_args, "-Xshare:off");
    assert_eq!(prefs.java_path.as_deref(), Some("/opt/jdk/bin/java"));
}

#[test]
fn launcher_error_messages_name_each_kind() {
    assert_eq!(
        LauncherError::NotFound("1.20.1".to_string()).message(),
        "not found: 1.20.1"
    );
    assert_eq!(
        LauncherError::Parse("bad json".to_string()).message(),
        "parse error: bad json"
    );
    assert_eq!(
        LauncherError::Cycle("looper".to_string()).message(),
        "inheritance too deep: looper"
    );
    assert_eq!(LauncherError::Io("zip".to_string()).message(), "io error: zip");
    assert_eq!(
        LauncherError::Spawn("no java".to_string()).message(),
        "spawn failed: no java"
    );
}
