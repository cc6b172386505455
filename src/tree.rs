//! The settings a tree is rendered with, and the builder that gathers them.
use vstd::prelude::*;
use crate::color::ColorChoice;

verus! {

/// The text a tree's branches are drawn with. Ideally `depth`, `breadth` and
/// `indent` have the same visual length.
#[non_exhaustive]
#[derive(Debug, Clone, Copy, PartialEq, Eq)]
pub struct Charset<'a> {
    /// Printed when going deeper into the directory structure.
    pub depth: &'a str,
    /// Printed when going across a directory.
    pub breadth: &'a str,
    /// Printed to indent branches at each level.
    pub indent: &'a str,
}

impl<'a> Charset<'a> {
    /// The standard charset: box-drawing lines, with non-breaking spaces after
    /// the vertical bar.
    pub fn standard() -> (r: Charset<'static>)
        ensures
            r.depth@ == "├── "@,
            r.breadth@ == "│\u{00A0}\u{00A0} "@,
            r.indent@ == "    "@,
    {
        Charset { depth: "├── ", breadth: "│\u{00A0}\u{00A0} ", indent: "    " }
    }

    /// The empty charset: the tree is invisible.
    pub fn empty() -> (r: Charset<'static>)
        ensures
            r.depth@ == "    "@,
            r.breadth@ == "    "@,
            r.indent@ == "    "@,
    {
        Charset { depth: "    ", breadth: "    ", indent: "    " }
    }
}

impl<'a> Default for Charset<'a> {
    /// The standard charset.
    fn default() -> (r: Charset<'a>)
        ensures
            r.depth@ == "├── "@,
            r.breadth@ == "│\u{00A0}\u{00A0} "@,
            r.indent@ == "    "@,
    {
        Charset::standard()
    }
}

/// A tree ready to render: its root and the settings it is drawn with.
pub struct Tree<'charset, C, I, K> {
    /// The root path.
    pub root: String,
    /// The deepest level shown, if limited.
    pub max_level: Option<usize>,
    /// The branch text.
    pub charset: Charset<'charset>,
    /// How much colour to show.
    pub color_choice: ColorChoice,
    /// The main configuration, if one was loaded.
    pub config: Option<C>,
    /// The icon configuration, if one was loaded.
    pub icons: Option<I>,
    /// The colour configuration, if one was loaded.
    pub colors: Option<K>,
}

/// Gathers the settings of a [`Tree`].
pub struct Builder<'charset, C, I, K> {
    pub root: String,
    pub color_choice: ColorChoice,
    pub max_level: Option<usize>,
    pub charset: Option<Charset<'charset>>,
    pub config: Option<C>,
    pub icons: Option<I>,
    pub colors: Option<K>,
}

impl<'charset, C, I, K> Builder<'charset, C, I, K> {
    /// A builder for a tree at `root`, with nothing else set.
    pub fn new(root: String, color_choice: ColorChoice) -> (r: Self)
        ensures
            r.root == root,
            r.color_choice == color_choice,
            r.max_level is None,
            r.charset is None,
            r.config is None,
            r.icons is None,
            r.colors is None,
    {
        Builder {
            root,
            color_choice,
            max_level: None,
            charset: None,
            config: None,
            icons: None,
            colors: None,
        }
    }

    /// Sets the deepest level shown.
    pub fn max_level(self, level: usize) -> (r: Self)
        ensures
            r == (Builder { max_level: Some(level), ..self }),
    {
        Builder {
            root: self.root,
            color_choice: self.color_choice,
            max_level: Some(level),
            charset: self.charset,
            config: self.config,
            icons: self.icons,
            colors: self.colors,
        }
    }

    /// Sets the branch text.
    pub fn charset(self, charset: Charset<'charset>) -> (r: Self)
        ensures
            r == (Builder { charset: Some(charset), ..self }),
    {
        Builder {
            root: self.root,
            color_choice: self.color_choice,
            max_level: self.max_level,
            charset: Some(charset),
            config: self.config,
            icons: self.icons,
            colors: self.colors,
        }
    }

    /// Sets the main configuration.
    pub fn config(self, config: C) -> (r: Self)
        ensures
            r == (Builder { config: Some(config), ..self }),
    {
        Builder {
            root: self.root,
            color_choice: self.color_choice,
            max_level: self.max_level,
            charset: self.charset,
            config: Some(config),
            icons: self.icons,
            colors: self.colors,
        }
    }

    /// Sets the icon configuration.
    pub fn icons(self, icons: I) -> (r: Self)
        ensures
            r == (Builder { icons: Some(icons), ..self }),
    {
        Builder {
            root: self.root,
            color_choice: self.color_choice,
            max_level: self.max_level,
            charset: self.charset,
            config: self.config,
            icons: Some(icons),
            colors: self.colors,
        }
    }

    /// Sets the colour configuration.
    pub fn colors(self, colors: K) -> (r: Self)
        ensures
            r == (Builder { colors: Some(colors), ..self }),
    {
        Builder {
            root: self.root,
            color_choice: self.color_choice,
            max_level: self.max_level,
            charset: self.charset,
            config: self.config,
            icons: self.icons,
            colors: Some(colors),
        }
    }

    /// The tree; the standard charset when none was set.
    pub fn build(self) -> (r: Tree<'charset, C, I, K>)
        ensures
            r.root == self.root,
            r.max_level == self.max_level,
            r.color_choice == self.color_choice,
            r.config == self.config,
            r.icons == self.icons,
            r.colors == self.colors,
            match self.charset {
                Some(c) => r.charset == c,
                None => r.charset.depth@ == "├── "@ && r.charset.breadth@ == "│\u{00A0}\u{00A0} "@
                    && r.charset.indent@ == "    "@,
            },
    {
        let charset = match self.charset {
            Some(c) => c,
            None => Charset::default(),
        };
        Tree {
            root: self.root,
            max_level: self.max_level,
            charset,
            color_choice: self.color_choice,
            config: self.config,
            icons: self.icons,
            colors: self.colors,
        }
    }
}

} // verus!
