use screen_sampler::settings::{get_setting, set_setting};
use screen_sampler::todo::{create_todo, delete_todo, get_todos, update_todo_status};
use screen_sampler::weather::{get_weather_cache, weather_cache_at};

#[test]
fn get_setting_resolves_to_nothing() {
    assert_eq!(get_setting("theme".to_string()), Ok(None));
}

#[test]
fn set_setting_accepts_and_discards() {
    assert_eq!(set_setting("theme".to_string(), "dark".to_string()), Ok(()));
}

#[test]
fn get_todos_is_empty() {
    let todos = get_todos().unwrap();
    assert!(todos.is_empty());
}

#[test]
fn create_todo_echoes_title_and_priority() {
    let tag = create_todo("water plants".to_string(), "high".to_string()).unwrap();
    assert_eq!(tag, "water plants-high");
}

#[test]
fn update_todo_status_accepts() {
    assert_eq!(update_todo_status("a1".to_string(), true), Ok(()));
}

#[test]
fn delete_todo_accepts() {
    assert_eq!(delete_todo("a1".to_string()), Ok(()));
}

#[test]
fn weather_cache_at_keeps_the_stamp() {
    let w = weather_cache_at("2024-01-02T03:04:05+00:00".to_string());
    assert_eq!(w.condition, "cloudy");
    assert_eq!(w.description, "多云");
    assert_eq!(w.updated_at, "2024-01-02T03:04:05+00:00");
}

#[test]
fn get_weather_cache_is_stamped_placeholder() {
    let w = get_weather_cache().unwrap();
    assert_eq!(w.condition, "cloudy");
    assert_eq!(w.description, "多云");
    assert!(w.updated_at.chars().count() >= 25);
    assert!(w.updated_at.contains('T'));
    assert!(w.updated_at.contains(':'));
}
