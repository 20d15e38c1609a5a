//! User preferences for the look of the interface.
use vstd::prelude::*;

verus! {

/// Border drawing style.
#[derive(Debug, Clone, Copy, PartialEq, Eq, Structural)]
pub enum BorderStyle {
    /// No borders (`"none"` in the configuration file).
    Borderless,
    Thin,
    Mixed,
    Heavy,
}

/// Spacing between rows.
#[derive(Debug, Clone, Copy, PartialEq, Eq, Structural)]
pub enum Density {
    Dense,
    Balanced,
    Spacious,
}

/// The widget drawn in the dashboard's signature area.
#[derive(Debug, Clone, Copy, PartialEq, Eq, Structural)]
pub enum SignatureWidget {
    Graph,
    Heat,
    Ascii,
    Clean,
}

/// The preferences read from `config.toml`; a missing entry takes its default.
#[derive(Debug, Clone, Copy, PartialEq, Eq, Structural)]
pub struct Config {
    pub borders: BorderStyle,
    pub density: Density,
    pub signature: SignatureWidget,
    pub animations: bool,
}

/// The border style used when none is configured.
pub fn default_borders() -> (b: BorderStyle)
    ensures
        b == BorderStyle::Thin,
{
    BorderStyle::Thin
}

/// The density used when none is configured.
pub fn default_density() -> (d: Density)
    ensures
        d == Density::Spacious,
{
    Density::Spacious
}

/// The signature widget used when none is configured.
pub fn default_signature() -> (s: SignatureWidget)
    ensures
        s == SignatureWidget::Graph,
{
    SignatureWidget::Graph
}

/// Animations are on unless configured off.
pub fn default_true() -> (b: bool)
    ensures
        b,
{
    true
}

impl Default for Config {
    fn default() -> (c: Config)
        ensures
            c == (Config {
                borders: BorderStyle::Thin,
                density: Density::Spacious,
                signature: SignatureWidget::Graph,
                animations: true,
            }),
    {
        Config {
            borders: default_borders(),
            density: default_density(),
            signature: default_signature(),
            animations: default_true(),
        }
    }
}

} // verus!
