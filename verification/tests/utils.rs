use dav::utils::{WithMutProcedure, WithProcedure};
use dav::DavConfig;

#[test]
fn with_returns_what_the_function_returns() {
    assert_eq!(3u8.with(|x| x + 1), 4);
    assert_eq!("a".to_string().with(|s| s + "b"), "ab");
    let secured = true;
    let config = DavConfig::new().with(move |c| {
        if secured {
            c.authorization("alice".to_string(), "s3cret".to_string())
        } else {
            c
        }
    });
    assert_eq!(config.user(), Some("alice"));
}

#[test]
fn with_mut_returns_the_changed_value() {
    assert_eq!(3u8.with_mut(|x| *x += 1), 4);
    assert_eq!(vec![1, 2].with_mut(|v| v.push(3)), vec![1, 2, 3]);
    assert_eq!(5u8.with_mut(|_| ()), 5);
}
