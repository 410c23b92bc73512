use std::cell::Cell;

use gc2d::cache::ResourceCache;
use gc2d::color::Color;
use gc2d::fonts::{get_font_height, get_font_size, get_font_width, Font, FontSize, FontsManager};
use gc2d::graphics::Graphics;
use gc2d::requests::{fulfil_requests, RequestQueue};

#[test]
fn loader_runs_once_per_key() {
    let calls = Cell::new(0u32);
    let loader = |k: &String| -> Result<usize, String> {
        calls.set(calls.get() + 1);
        Ok(k.len())
    };
    let mut cache: ResourceCache<String, usize> = ResourceCache::new();
    for _ in 0..5 {
        let v = cache.get_or_create("hero.png".to_string(), &loader);
        assert_eq!(v, Ok(&8));
    }
    assert_eq!(calls.get(), 1);
    assert_eq!(cache.len(), 1);
}

#[test]
fn distinct_keys_load_separately() {
    let calls = Cell::new(0u32);
    let loader = |k: &String| -> Result<usize, String> {
        calls.set(calls.get() + 1);
        Ok(k.len())
    };
    let mut cache: ResourceCache<String, usize> = ResourceCache::new();
    assert_eq!(cache.get_or_create("a".to_string(), &loader), Ok(&1));
    assert_eq!(cache.get_or_create("bb".to_string(), &loader), Ok(&2));
    assert_eq!(cache.get_or_create("a".to_string(), &loader), Ok(&1));
    assert_eq!(calls.get(), 2);
    assert_eq!(cache.len(), 2);
}

#[test]
fn failed_load_is_not_cached_and_is_retried() {
    let calls = Cell::new(0u32);
    let loader = |_: &String| -> Result<u32, String> {
        calls.set(calls.get() + 1);
        if calls.get() == 1 {
            Err("device busy".to_string())
        } else {
            Ok(42)
        }
    };
    let mut cache: ResourceCache<String, u32> = ResourceCache::new();
    let key = "boom.wav".to_string();
    assert_eq!(cache.get_or_create(key.clone(), &loader), Err("device busy".to_string()));
    assert!(!cache.contains(&key));
    assert_eq!(cache.get(&key), None);
    assert_eq!(cache.get_or_create(key.clone(), &loader), Ok(&42));
    assert!(cache.contains(&key));
    assert_eq!(cache.get(&key), Some(&42));
    assert_eq!(cache.get_or_create(key.clone(), &loader), Ok(&42));
    assert_eq!(calls.get(), 2);
}

#[test]
fn empty_cache_holds_nothing() {
    let cache: ResourceCache<String, u32> = ResourceCache::new();
    assert_eq!(cache.len(), 0);
    assert!(!cache.contains(&"x".to_string()));
    assert_eq!(cache.get(&"x".to_string()), None);
}

#[test]
fn font_keys_differ_by_size() {
    let calls = Cell::new(0u32);
    let loader = |f: &Font| -> Result<u16, String> {
        calls.set(calls.get() + 1);
        Ok(f.point_size)
    };
    let mut fonts: FontsManager<u16> = ResourceCache::new();
    assert_eq!(fonts.get_or_create(Font::new("a.ttf", 18), &loader), Ok(&18));
    assert_eq!(fonts.get_or_create(Font::new("a.ttf", 24), &loader), Ok(&24));
    assert_eq!(fonts.get_or_create(Font::new("a.ttf", 18), &loader), Ok(&18));
    assert_eq!(calls.get(), 2);
}

#[test]
fn queue_keeps_order_and_empties() {
    let mut q: RequestQueue<String> = RequestQueue::new();
    assert!(q.is_empty());
    q.enqueue("one".to_string());
    q.enqueue("two".to_string());
    assert_eq!(q.len(), 2);
    let all = q.take_all();
    assert_eq!(all, vec!["one".to_string(), "two".to_string()]);
    assert!(q.is_empty());
}

#[test]
fn drain_reports_failures_and_goes_on() {
    let order = std::cell::RefCell::new(Vec::new());
    let loader = |k: &String| -> Result<usize, String> {
        order.borrow_mut().push(k.clone());
        if k == "bad" {
            Err(format!("cannot open {}", k))
        } else {
            Ok(k.len())
        }
    };
    let mut q: RequestQueue<String> = RequestQueue::new();
    q.enqueue("first".to_string());
    q.enqueue("bad".to_string());
    q.enqueue("third".to_string());
    let mut cache: ResourceCache<String, usize> = ResourceCache::new();
    let failed = q.drain_into(&mut cache, &loader);
    assert_eq!(failed, vec![("bad".to_string(), "cannot open bad".to_string())]);
    assert_eq!(*order.borrow(), vec!["first".to_string(), "bad".to_string(), "third".to_string()]);
    assert!(cache.contains(&"first".to_string()));
    assert!(cache.contains(&"third".to_string()));
    assert!(!cache.contains(&"bad".to_string()));
    assert!(q.is_empty());
}

#[test]
fn fulfil_skips_held_keys() {
    let calls = Cell::new(0u32);
    let loader = |k: &String| -> Result<usize, String> {
        calls.set(calls.get() + 1);
        Ok(k.len())
    };
    let mut cache: ResourceCache<String, usize> = ResourceCache::new();
    let requests = vec!["a".to_string(), "a".to_string(), "bc".to_string()];
    let failed = fulfil_requests(&requests, &mut cache, &loader);
    assert!(failed.is_empty());
    assert_eq!(calls.get(), 2);
    assert_eq!(cache.len(), 2);
}

#[test]
fn font_request_is_loaded_at_the_next_frame_only() {
    let loads = Cell::new(0u32);
    let loader = |_: &Font| -> Result<&'static str, String> {
        loads.set(loads.get() + 1);
        Ok("font handle")
    };
    let mut graphics = Graphics::new();
    let mut fonts: FontsManager<&'static str> = ResourceCache::new();
    let key = Font::new("a.ttf", 18);

    // frame 1: drain (nothing pending), then draw requests the font
    assert!(graphics.drain_fonts(&mut fonts, &loader).is_empty());
    let requested = graphics.new_font("a.ttf", 18);
    assert_eq!(requested, key);
    assert!(!fonts.contains(&key));
    assert_eq!(loads.get(), 0);

    // frame 2: the drain loads it before any callback
    assert!(graphics.drain_fonts(&mut fonts, &loader).is_empty());
    assert!(fonts.contains(&key));
    assert_eq!(loads.get(), 1);
    assert_eq!(graphics.actual_font(), &Some(key.clone()));
    graphics.new_font("a.ttf", 18);

    // frame 3: the identical request loads nothing
    assert!(graphics.drain_fonts(&mut fonts, &loader).is_empty());
    assert_eq!(loads.get(), 1);
    assert_eq!(fonts.len(), 1);
}

#[test]
fn first_loaded_font_becomes_current() {
    let loader = |f: &Font| -> Result<u16, String> {
        if f.filename == "missing.ttf" {
            Err("no such file".to_string())
        } else {
            Ok(f.point_size)
        }
    };
    let mut graphics = Graphics::new();
    let mut fonts: FontsManager<u16> = ResourceCache::new();
    graphics.new_font("missing.ttf", 10);
    graphics.new_font("b.ttf", 12);
    graphics.new_font("c.ttf", 14);
    let failed = graphics.drain_fonts(&mut fonts, &loader);
    assert_eq!(failed, vec![(Font::new("missing.ttf", 10), "no such file".to_string())]);
    assert_eq!(graphics.actual_font(), &Some(Font::new("b.ttf", 12)));
}

#[test]
fn set_font_is_kept_across_drains() {
    let loader = |f: &Font| -> Result<u16, String> { Ok(f.point_size) };
    let mut graphics = Graphics::new();
    let mut fonts: FontsManager<u16> = ResourceCache::new();
    graphics.set_font(Some(Font::new("mine.ttf", 30)));
    graphics.new_font("other.ttf", 12);
    graphics.drain_fonts(&mut fonts, &loader);
    assert_eq!(graphics.actual_font(), &Some(Font::new("mine.ttf", 30)));
}

#[test]
fn no_font_selected_when_every_load_fails() {
    let loader = |_: &Font| -> Result<u16, String> { Err("bad".to_string()) };
    let mut graphics = Graphics::new();
    let mut fonts: FontsManager<u16> = ResourceCache::new();
    graphics.new_font("x.ttf", 12);
    let failed = graphics.drain_fonts(&mut fonts, &loader);
    assert_eq!(failed.len(), 1);
    assert_eq!(graphics.actual_font(), &None);
}

#[test]
fn font_size_lookups() {
    let loader = |f: &Font| -> Result<u16, String> { Ok(f.point_size) };
    let measure = |size: &u16, text: &str| -> Result<(u32, u32), String> {
        if text.is_empty() {
            Err("empty".to_string())
        } else {
            Ok((text.len() as u32 * *size as u32, *size as u32 + 2))
        }
    };
    let mut fonts: FontsManager<u16> = ResourceCache::new();
    let key = Font::new("a.ttf", 10);
    assert_eq!(get_font_size(&fonts, "abc", &key, &measure), Err("Font not found".to_string()));
    assert_eq!(get_font_height(&fonts, "abc", &key, &measure), Err("Font size not found".to_string()));
    fonts.get_or_create(key.clone(), &loader).unwrap();
    assert_eq!(get_font_size(&fonts, "abc", &key, &measure), Ok(FontSize { height: 12, width: 30 }));
    assert_eq!(get_font_height(&fonts, "abc", &key, &measure), Ok(12));
    assert_eq!(get_font_width(&fonts, "abc", &key, &measure), Ok(30));
    assert_eq!(get_font_size(&fonts, "", &key, &measure), Err("Font size not found".to_string()));
    assert_eq!(get_font_width(&fonts, "", &key, &measure), Err("Font size not found".to_string()));
}

#[test]
fn colours_and_begin_draw() {
    let mut graphics = Graphics::new();
    assert_eq!(graphics.actual_color(), Color::white());
    assert_eq!(graphics.background_color(), Color::black());
    graphics.set_background_color(Color::blue());
    graphics.set_default_color(Color::green());
    graphics.set_color(Color::red());
    assert_eq!(graphics.actual_color(), Color::red());
    assert_eq!(graphics.color_or_actual(None), Color::red());
    assert_eq!(graphics.color_or_actual(Some(Color::new(1, 2, 3, 4))), Color::new(1, 2, 3, 4));
    assert_eq!(graphics.begin_draw(), Color::blue());
    assert_eq!(graphics.actual_color(), Color::green());
    graphics.set_color(Color::red());
    graphics.apply_default_color();
    assert_eq!(graphics.actual_color(), Color::green());
    assert_eq!(Color::white(), Color { r: 255, g: 255, b: 255, a: 255 });
    assert_eq!(Color::black(), Color { r: 0, g: 0, b: 0, a: 255 });
}
