use omnigate::errors::AppError;
use omnigate::greeter::GreeterService;
use omnigate::subscription::Phase;
use omnigate::users::UserServiceImpl;

#[test]
fn get_user_zero_is_not_found() {
    let svc = UserServiceImpl::new();
    assert_eq!(svc.get_user(0).unwrap_err(), AppError::NotFound);
    let u = svc.get_user(12).unwrap();
    assert_eq!(u.id, 12);
    assert_eq!(u.name, "John Doe");
    assert_eq!(u.email, "john@example.com");
    assert_eq!(u.age, 30);
}

#[test]
fn created_users_are_numbered_from_one() {
    let mut svc = UserServiceImpl::new();
    let a = svc.create_user("Ann".to_string(), "ann@x.org".to_string(), 41).unwrap();
    let b = svc.create_user("Bob".to_string(), "bob@x.org".to_string(), 7).unwrap();
    assert_eq!((a.id, a.name.as_str(), a.email.as_str(), a.age), (1, "Ann", "ann@x.org", 41));
    assert_eq!((b.id, b.name.as_str()), (2, "Bob"));
    let mut fresh = UserServiceImpl::default();
    assert_eq!(fresh.create_user("C".into(), "c@x.org".into(), 1).unwrap().id, 1);
}

#[test]
fn update_and_delete_user() {
    let svc = UserServiceImpl::new();
    assert_eq!(svc.update_user(0, "a".into(), "b".into(), 1).unwrap_err(), AppError::NotFound);
    let u = svc.update_user(3, "Cy".into(), "cy@x.org".into(), 50).unwrap();
    assert_eq!((u.id, u.name.as_str(), u.email.as_str(), u.age), (3, "Cy", "cy@x.org", 50));
    assert_eq!(svc.delete_user(0).unwrap_err(), AppError::NotFound);
    let d = svc.delete_user(7).unwrap();
    assert!(d.success);
    assert_eq!(d.message, "User 7 deleted successfully");
    assert_eq!(svc.delete_user(-45).unwrap().message, "User -45 deleted successfully");
    assert_eq!(svc.delete_user(i32::MIN).unwrap().message, "User -2147483648 deleted successfully");
}

#[test]
fn subscribe_opens_a_fresh_subscription() {
    let svc = UserServiceImpl::new();
    let s = svc.subscribe_user_updates(4, 0);
    assert_eq!((s.user_id, s.interval_secs, s.sequence, s.phase), (4, 2, 0, Phase::Created));
}

#[test]
fn greeter_says_hello_and_echoes() {
    let g = GreeterService;
    assert_eq!(g.say_hello("Ada"), "Hello Ada!");
    assert_eq!(g.say_hello(""), "Hello !");
    assert_eq!(g.echo("ping".to_string()), "ping");
}
