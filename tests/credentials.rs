use aksara::credentials::{
    api_key_from, authenticate, bearer_token, decide_self_report, generate_api_key, issue_claims,
    password_hash_for_update, prepare_new_user, authorize_self_report, LoginCandidate, SelfReportRow,
};
use aksara::errors::{AccessError, StorageError};
use aksara::model::{AuthenticatedUser, Claims};
use aksara::org::CreateUser;
use aksara::seed::{TingkatPendidikan, TipeKlien};
use aksara::text::{is_white_space_char, trim_text};
use aksara::types::{UserRoleEnum, UserStatusKepegawaianEnum};

fn candidate(hash: String) -> LoginCandidate {
    LoginCandidate {
        id: 42,
        role: UserRoleEnum::Pegawai,
        bapas_id: Some(7),
        kanwil_id: Some(3),
        password_hash: hash,
        active: true,
        deleted: false,
    }
}

#[test]
fn login_with_right_password() {
    let hash = bcrypt::hash("rahasia", 4).unwrap();
    let claims = authenticate(Ok(Some(candidate(hash))), "rahasia", 1_000).unwrap();
    assert_eq!(claims, Claims { sub: 42, role: UserRoleEnum::Pegawai, bapas_id: Some(7), kanwil_id: Some(3), exp: 87_400 });
}

#[test]
fn login_refusals() {
    let hash = bcrypt::hash("rahasia", 4).unwrap();
    assert_eq!(authenticate(Ok(Some(candidate(hash.clone()))), "salah", 0), Err(AccessError::Unauthorized));
    let inactive = LoginCandidate { active: false, ..candidate(hash.clone()) };
    assert_eq!(authenticate(Ok(Some(inactive)), "rahasia", 0), Err(AccessError::Unauthorized));
    let deleted = LoginCandidate { deleted: true, ..candidate(hash) };
    assert_eq!(authenticate(Ok(Some(deleted)), "rahasia", 0), Err(AccessError::Unauthorized));
    assert_eq!(authenticate(Ok(None), "rahasia", 0), Err(AccessError::Unauthorized));
    assert_eq!(authenticate(Err(StorageError), "rahasia", 0), Err(AccessError::Internal));
    assert_eq!(authenticate(Ok(Some(candidate("not a hash".to_string()))), "rahasia", 0), Err(AccessError::Internal));
}

#[test]
fn claims_from_verdict() {
    let c = candidate(String::new());
    assert_eq!(issue_claims(&c, None, 5), Err(AccessError::Internal));
    assert_eq!(issue_claims(&c, Some(false), 5), Err(AccessError::Unauthorized));
    assert_eq!(issue_claims(&c, Some(true), 5).unwrap().exp, 86_405);
}

#[test]
fn self_service_check_in() {
    let hash = bcrypt::hash("1234", 4).unwrap();
    let row = SelfReportRow { online_akses_klien: true, pin_klien_hash: Some(hash) };
    assert_eq!(authorize_self_report(Ok(Some(row.clone())), Some("1234".to_string())), Ok(()));
    assert_eq!(authorize_self_report(Ok(Some(row.clone())), Some("9999".to_string())), Err(AccessError::Unauthorized));
    assert_eq!(authorize_self_report(Ok(Some(row.clone())), None), Err(AccessError::Unauthorized));
    let offline = SelfReportRow { online_akses_klien: false, ..row.clone() };
    assert_eq!(authorize_self_report(Ok(Some(offline)), Some("1234".to_string())), Err(AccessError::Forbidden));
    let no_pin = SelfReportRow { online_akses_klien: true, pin_klien_hash: None };
    assert_eq!(authorize_self_report(Ok(Some(no_pin.clone())), Some("1234".to_string())), Err(AccessError::Forbidden));
    assert_eq!(authorize_self_report(Ok(None), Some("1234".to_string())), Err(AccessError::NotFound));
    assert_eq!(authorize_self_report(Err(StorageError), None), Err(AccessError::Internal));
    assert_eq!(decide_self_report(&row, true, true), Ok(()));
    assert_eq!(decide_self_report(&row, true, false), Err(AccessError::Unauthorized));
    assert_eq!(decide_self_report(&no_pin, true, true), Err(AccessError::Forbidden));
}

#[test]
fn password_update_hashes_new_password() {
    assert_eq!(password_hash_for_update(None, "old".to_string()), Ok("old".to_string()));
    let h = password_hash_for_update(Some("baru".to_string()), "old".to_string()).unwrap();
    assert_eq!(h.len(), 60);
    assert!(bcrypt::verify("baru", &h).unwrap());
}

fn new_account(bapas_id: Option<i32>) -> CreateUser {
    CreateUser {
        nip_user: "199001".to_string(),
        nama_user: "Sari".to_string(),
        password: "awal".to_string(),
        gelar_depan_user: None,
        gelar_belakang_user: None,
        pangkat_golongan_user: None,
        jabatan_user: None,
        bapas_id,
        kanwil_id: Some(3),
        status_kepegawaian_user: UserStatusKepegawaianEnum::Aktif,
        email_user: None,
        nomor_telepon_user: None,
        status_aktif_user: None,
        role_user: UserRoleEnum::Pegawai,
    }
}

#[test]
fn new_account_is_checked_then_hashed() {
    let admin = AuthenticatedUser { id: 5, role: UserRoleEnum::AdminBapas, bapas_id: Some(7), kanwil_id: Some(3) };
    let stored = prepare_new_user(&admin, new_account(Some(7))).unwrap();
    assert_eq!(stored.nip_user, "199001");
    assert_eq!(stored.role_user, Some(UserRoleEnum::Pegawai));
    assert_ne!(stored.password_hash, "awal");
    assert!(bcrypt::verify("awal", &stored.password_hash).unwrap());
    assert!(matches!(prepare_new_user(&admin, new_account(Some(8))), Err(AccessError::Forbidden)));
    let unplaced_admin = AuthenticatedUser { bapas_id: None, ..admin };
    assert!(matches!(prepare_new_user(&unplaced_admin, new_account(None)), Err(AccessError::Forbidden)));
}

#[test]
fn api_key_and_digest() {
    let (key, digest) = api_key_from("abc");
    assert_eq!(key.api_key, "ak_abc");
    assert_eq!(digest, "c9bd4037eb69c4fa4fa07c6dcf551b02060637c76ec2d73846ca90eb26689246");
    let (fresh, fresh_digest) = generate_api_key().unwrap();
    assert_eq!(fresh.api_key.len(), 35);
    assert!(fresh.api_key.starts_with("ak_"));
    assert!(fresh.api_key[3..].chars().all(|c| c.is_ascii_alphanumeric()));
    assert_eq!(fresh_digest.len(), 64);
}

#[test]
fn bearer_header() {
    assert_eq!(bearer_token("Bearer abc.def"), Some("abc.def".to_string()));
    assert_eq!(bearer_token("Bearer "), Some(String::new()));
    assert_eq!(bearer_token("Basic abc"), None);
    assert_eq!(bearer_token("Bear"), None);
}

#[test]
fn seed_labels_ignore_case_and_spaces() {
    assert_eq!(TipeKlien::parse_label("  Dewasa "), Some(TipeKlien::Dewasa));
    assert_eq!(TipeKlien::parse_label("ANAK"), Some(TipeKlien::Anak));
    assert_eq!(TipeKlien::parse_label("remaja"), None);
    assert_eq!(TingkatPendidikan::parse_label("SMA atau Sederajat"), Some(TingkatPendidikan::SmaAtauSederajat));
    assert_eq!(TingkatPendidikan::parse_label(" s3 ATAU sederajat"), Some(TingkatPendidikan::S3AtauSederajat));
    assert_eq!(TingkatPendidikan::from_normalized("Tidak Sekolah"), None);
    assert_eq!(TingkatPendidikan::from_normalized("tidak sekolah"), Some(TingkatPendidikan::TidakSekolah));
}

#[test]
fn trim_removes_unicode_white_space_only() {
    assert_eq!(trim_text("\u{3000}\t abc def \u{2028}\n"), "abc def");
    assert_eq!(trim_text("   "), "");
    assert_eq!(trim_text(""), "");
    assert_eq!(trim_text("x\u{200B}"), "x\u{200B}");
    for c in ['\t', '\n', '\r', ' ', '\u{85}', '\u{a0}', '\u{1680}', '\u{2000}', '\u{200a}', '\u{202f}', '\u{205f}', '\u{3000}', 'a', '\u{200b}', '_'] {
        assert_eq!(is_white_space_char(c), c.is_whitespace());
    }
}
