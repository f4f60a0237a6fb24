use rusttp::identity::errors::Error;
use rusttp::identity::repository::sessions::SessionsRepository;
use rusttp::identity::repository::users::UsersRepository;
use rusttp::identity::service::get_session::GetSessionService;
use rusttp::identity::service::get_user::GetUserService;
use rusttp::mailer::Mailer;
use rusttp::queue::Queue;

#[test]
fn sessions_new_creates_repository() {
    let _ = SessionsRepository::new();
}

#[test]
fn find_by_token_returns_not_found() {
    let repo = SessionsRepository::new();
    let result = repo.find_by_token("token");
    assert!(result.is_err());
    assert!(matches!(result.unwrap_err(), Error::NotFound));
}

#[test]
fn find_by_user_id_returns_not_found() {
    let repo = SessionsRepository::new();
    let result = repo.find_by_user_id(0x0123_4567_89ab_cdef_0123_4567_89ab_cdef);
    assert!(result.is_err());
    assert!(matches!(result.unwrap_err(), Error::NotFound));
}

#[test]
fn users_new_creates_repository() {
    let _ = UsersRepository::new();
}

#[test]
fn find_by_id_returns_not_found() {
    let repo = UsersRepository::new();
    let result = repo.find_by_id(42);
    assert!(result.is_err());
    assert!(matches!(result.unwrap_err(), Error::NotFound));
}

#[test]
fn find_by_email_returns_not_found() {
    let repo = UsersRepository::new();
    let result = repo.find_by_email("test@example.com");
    assert!(result.is_err());
    assert!(matches!(result.unwrap_err(), Error::NotFound));
}

#[test]
fn get_session_new_creates_service() {
    let repo = SessionsRepository::new();
    let _ = GetSessionService::new(repo);
}

#[test]
fn by_token_delegates_to_repo() {
    let svc = GetSessionService::new(SessionsRepository::new());
    let result = svc.by_token("anything");
    assert!(matches!(result.unwrap_err(), Error::NotFound));
}

#[test]
fn get_user_new_creates_service() {
    let repo = UsersRepository::new();
    let _ = GetUserService::new(repo);
}

#[test]
fn by_id_delegates_to_repo() {
    let svc = GetUserService::new(UsersRepository::new());
    let result = svc.by_id(7);
    assert!(matches!(result.unwrap_err(), Error::NotFound));
}

#[test]
fn new_creates_mailer() {
    let _ = Mailer::new();
}

#[test]
#[allow(clippy::default_constructed_unit_structs)]
fn default_creates_mailer() {
    let _ = Mailer::default();
}

#[test]
fn new_creates_queue() {
    let _ = Queue::new();
}

#[test]
#[allow(clippy::default_constructed_unit_structs)]
fn default_creates_queue() {
    let _ = Queue::default();
}

#[test]
fn repositories_default_like_new() {
    assert!(SessionsRepository::default().find_by_token("").is_err());
    assert!(UsersRepository::default().find_by_email("").is_err());
}
