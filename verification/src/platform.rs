//! The two families of operating system the supervisor distinguishes.

use vstd::prelude::*;

verus! {

/// Operating-system family the application runs on.
#[derive(Clone, Copy, Debug, PartialEq, Eq, Structural)]
pub enum Platform {
    Windows,
    Unix,
}

impl Platform {
    /// Character between the components of a path.
    pub open spec fn path_separator_spec(self) -> char {
        match self {
            Platform::Windows => '\\',
            Platform::Unix => '/',
        }
    }

    /// Character between the entries of a path list such as `PYTHONPATH`.
    pub open spec fn list_separator_spec(self) -> char {
        match self {
            Platform::Windows => ';',
            Platform::Unix => ':',
        }
    }

    /// Whether the listener on a port can be found and terminated from outside.
    pub open spec fn reclaims_ports_spec(self) -> bool {
        self is Windows
    }

    /// Whether a child has to be bound to a confinement object after it started.
    pub open spec fn confines_children_spec(self) -> bool {
        self is Windows
    }

    /// Whether a spawned child would open a console window unless told not to.
    pub open spec fn has_console_windows_spec(self) -> bool {
        self is Windows
    }

    #[verifier::when_used_as_spec(path_separator_spec)]
    pub fn path_separator(self) -> (c: char)
        ensures
            c == self.path_separator_spec(),
    {
        match self {
            Platform::Windows => '\\',
            Platform::Unix => '/',
        }
    }

    #[verifier::when_used_as_spec(list_separator_spec)]
    pub fn list_separator(self) -> (c: char)
        ensures
            c == self.list_separator_spec(),
    {
        match self {
            Platform::Windows => ';',
            Platform::Unix => ':',
        }
    }

    #[verifier::when_used_as_spec(reclaims_ports_spec)]
    pub fn reclaims_ports(self) -> (b: bool)
        ensures
            b == self.reclaims_ports_spec(),
    {
        match self {
            Platform::Windows => true,
            Platform::Unix => false,
        }
    }

    #[verifier::when_used_as_spec(confines_children_spec)]
    pub fn confines_children(self) -> (b: bool)
        ensures
            b == self.confines_children_spec(),
    {
        match self {
            Platform::Windows => true,
            Platform::Unix => false,
        }
    }

    #[verifier::when_used_as_spec(has_console_windows_spec)]
    pub fn has_console_windows(self) -> (b: bool)
        ensures
            b == self.has_console_windows_spec(),
    {
        match self {
            Platform::Windows => true,
            Platform::Unix => false,
        }
    }
}

} // verus!
