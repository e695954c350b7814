//! Plain data records the site's pages carry around: blog posts, their
//! categories, and the top-level routes. The relational store, the markdown
//! pipeline and the router that produce and consume these are external
//! collaborators; the records themselves are plain values.

use vstd::prelude::*;

verus! {

/// A blog category.
#[derive(Clone, Debug, PartialEq)]
pub struct Category {
    pub id: i64,
    pub name: String,
    pub slug: String,
    pub description: Option<String>,
}

/// A rendered blog post, with its categories joined in and its publication
/// date already formatted for display.
#[derive(Clone, Debug, PartialEq)]
pub struct BlogPost {
    pub id: i64,
    pub title: String,
    pub description: String,
    pub hero_image: String,
    pub content: String,
    pub published_at: String,
    pub slug: String,
    pub categories: Vec<Category>,
}

/// The site's top-level routes.
#[derive(Clone, Copy, Debug, PartialEq, Eq, Structural)]
pub enum Routes {
    Home,
    Blog,
    Projects,
}

/// The entries of the navigation bar.
#[derive(Clone, Copy, Debug, PartialEq, Eq, Structural)]
pub enum NavElements {
    Home,
    Blog,
}

impl NavElements {
    /// The path the entry links to.
    pub fn href(&self) -> (r: &'static str)
        ensures
            self is Home ==> r@ == "/"@,
            self is Blog ==> r@ == "/blog"@,
    {
        match self {
            NavElements::Home => "/",
            NavElements::Blog => "/blog",
        }
    }

    /// The text the entry shows.
    pub fn label(&self) -> (r: &'static str)
        ensures
            self is Home ==> r@ == "# home"@,
            self is Blog ==> r@ == "# view blog posts"@,
    {
        match self {
            NavElements::Home => "# home",
            NavElements::Blog => "# view blog posts",
        }
    }

    /// Whether the router should match the entry's path exactly: only the
    /// root entry, so that every blog page keeps the blog entry active.
    pub fn exact(&self) -> (r: bool)
        ensures
            r == (self is Home),
    {
        match self {
            NavElements::Home => true,
            NavElements::Blog => false,
        }
    }
}

} // verus!
