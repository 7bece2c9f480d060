use bottles_next::config::{AppExperience, Config};

#[test]
fn titles() {
    assert_eq!(AppExperience::Next.title(), "Next Mode");
    assert_eq!(AppExperience::Classic.title(), "Classic Mode");
}

#[test]
fn captions() {
    assert_eq!(AppExperience::Next.caption(), "The easiest way to use Bottles.");
    assert_eq!(AppExperience::Classic.caption(), "The experience for advanced users.");
}

#[test]
fn descriptions() {
    assert_eq!(
        AppExperience::Next.description(),
        (
            "The software and games you install will be managed by Bottles using a simple environment.",
            "This is the most convenient way if you're a beginner."
        )
    );
    assert_eq!(
        AppExperience::Classic.description(),
        (
            "The software and games you install will be managed by Bottles in multiple environments.",
            "This gives advanced users the ability to fine-tune their experience."
        )
    );
}

#[test]
fn next_is_the_default_experience() {
    assert_eq!(AppExperience::default(), AppExperience::Next);
}

#[test]
fn default_config_has_no_experience() {
    assert_eq!(Config::default(), Config { app_experience: None });
}

#[test]
fn missing_store_leaves_the_defaults() {
    assert_eq!(Config::from_entry(None), Config::default());
}

#[test]
fn stored_config_is_taken() {
    let stored = Config { app_experience: Some(AppExperience::Classic) };
    assert_eq!(Config::from_entry(Some(Ok(stored))), stored);
}

#[test]
fn partly_read_config_is_taken() {
    let partial = Config { app_experience: Some(AppExperience::Next) };
    assert_eq!(Config::from_entry(Some(Err(partial))), partial);
    let empty = Config { app_experience: None };
    assert_eq!(Config::from_entry(Some(Err(empty))), empty);
}
