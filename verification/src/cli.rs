//! What the command line gives the editor.

use vstd::prelude::*;

verus! {

/// The arguments of the editor.
#[derive(Debug)]
pub struct Args {
    /// The file to load the drawing from and to save it to.
    pub path: Option<String>,
}

impl Args {
    /// The arguments that name `path`, or no file.
    pub fn new(path: Option<String>) -> (args: Args)
        ensures
            args.path == path,
    {
        Args { path }
    }
}

impl Clone for Args {
    fn clone(&self) -> (copy: Args)
        ensures
            copy == *self,
    {
        Args {
            path: match &self.path {
                Some(path) => Some(path.clone()),
                None => None,
            },
        }
    }
}

} // verus!
