//! Tests of the plain data records the site's pages carry.

use site_core::models::{BlogPost, Category, NavElements, Routes};

#[test]
fn category_holds_its_fields() {
    let cat = Category {
        id: 7,
        name: String::from("Rust"),
        slug: String::from("rust"),
        description: None,
    };
    let copy = cat.clone();
    assert_eq!(cat, copy);
    assert_eq!(copy.id, 7);
    assert_eq!(copy.name, "Rust");
    assert!(copy.description.is_none());
}

#[test]
fn blog_post_joins_its_categories() {
    let cat = Category {
        id: 1,
        name: String::from("Games"),
        slug: String::from("games"),
        description: Some(String::from("Play things")),
    };
    let post = BlogPost {
        id: 42,
        title: String::from("A tiny arcade"),
        description: String::from("An easter egg"),
        hero_image: String::from("hero.png"),
        content: String::from("<p>hello</p>"),
        published_at: String::from("01/02/2024"),
        slug: String::from("a-tiny-arcade"),
        categories: vec![cat.clone()],
    };
    assert_eq!(post.categories.len(), 1);
    assert_eq!(post.categories[0], cat);
    assert_eq!(post.slug, "a-tiny-arcade");
}

#[test]
fn nav_entries_link_and_label() {
    assert_eq!(NavElements::Home.href(), "/");
    assert_eq!(NavElements::Blog.href(), "/blog");
    assert_eq!(NavElements::Home.label(), "# home");
    assert_eq!(NavElements::Blog.label(), "# view blog posts");
    assert!(NavElements::Home.exact());
    assert!(!NavElements::Blog.exact());
}

#[test]
fn routes_compare_by_variant() {
    assert_eq!(Routes::Home, Routes::Home);
    assert_ne!(Routes::Home, Routes::Blog);
    assert_ne!(Routes::Blog, Routes::Projects);
}
