use vstd::prelude::*;

verus! {

/// The address under which the service is reached from outside, without a
/// trailing slash. Confirmation links begin with it.
pub struct ApplicationBaseUrl(pub String);

impl Clone for ApplicationBaseUrl {
    fn clone(&self) -> (copy: Self)
        ensures
            copy.0@ == self.0@,
    {
        ApplicationBaseUrl(self.0.clone())
    }
}

} // verus!
