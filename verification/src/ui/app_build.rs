//! Builder of the main window's widgets.
use vstd::prelude::*;

verus! {

/// Builder of the main window's widgets.
pub struct AppBuild {
    name: String,
}

impl AppBuild {
    /// The builder, named "AppBuilder".
    pub fn new() -> (r: Self)
        ensures
            r.name()@ == seq!['A', 'p', 'p', 'B', 'u', 'i', 'l', 'd', 'e', 'r'],
    {
        let name = String::from_str("AppBuilder");
        proof {
            reveal_strlit("AppBuilder");
        }
        let r = AppBuild { name };
        assert(r.name@ =~= seq!['A', 'p', 'p', 'B', 'u', 'i', 'l', 'd', 'e', 'r']);
        r
    }

    /// Name of the builder.
    pub closed spec fn name(&self) -> String {
        self.name
    }

    /// Name of the builder.
    pub fn get_name(&self) -> (r: &String)
        ensures
            r@ == self.name()@,
    {
        &self.name
    }
}

} // verus!
