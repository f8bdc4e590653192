//! The traits by which an exchange plugs its options and handlers into the
//! client.

use std::fmt::Debug;
use vstd::prelude::*;

verus! {

/// A `trait` that represents an option which can be set when creating handlers
pub trait HandlerOption: Default {
    type Options: HandlerOptions<OptionItem = Self>;
}

/// Set of [`HandlerOption`]s
pub trait HandlerOptions: Default + Clone + Debug {
    /// The element of this set
    type OptionItem;

    /// The set with `option` applied to it.
    spec fn with_option(self, option: Self::OptionItem) -> Self;

    fn update(&mut self, option: Self::OptionItem)
        ensures
            *final(self) == old(self).with_option(option),
    ;
}

/// A `trait` that shows the implementing type is able to create request handlers
pub trait HttpOption<'a, R>: HandlerOption {
    type RequestHandler;

    fn request_handler(options: Self::Options) -> Self::RequestHandler;
}

/// A `trait` that shows the implementing type is able to create WebSocket handlers
pub trait WebSocketOption<H>: HandlerOption {
    type WebSocketHandler;

    fn websocket_handler(handler: H, options: Self::Options) -> Self::WebSocketHandler;
}

/// A `trait` of whatever holds default options of one kind.
pub trait GetOptions<O: HandlerOptions> {
    fn default_options(&self) -> &O;

    fn default_options_mut(&mut self) -> &mut O;
}

/// `start` with each of `options` applied to it, first to last.
pub open spec fn with_options<T: HandlerOptions>(start: T, options: Seq<T::OptionItem>) -> T
    decreases options.len(),
{
    if options.len() == 0 {
        start
    } else {
        with_options(start, options.drop_last()).with_option(options.last())
    }
}

/// A copy of the default options with each of `options` applied to it, first
/// to last. The defaults themselves stay as they are.
pub fn merged_options<O: HandlerOption>(defaults: &O::Options, options: Vec<O>) -> (merged: O::Options)
    ensures
        exists|start: O::Options| cloned(*defaults, start) && merged == with_options(start, options@),
{
    let mut merged = defaults.clone();
    let ghost start = merged;
    assert(cloned(*defaults, start));
    let ghost all = options@;
    let mut rest = options;
    let mut done: Ghost<Seq<O>> = Ghost(Seq::empty());
    while rest.len() > 0
        invariant
            cloned(*defaults, start),
            all == options@,
            all == done@ + rest@,
            merged == with_options(start, done@),
        decreases rest.len(),
    {
        let option = rest.remove(0);
        merged.update(option);
        proof {
            let next = done@.push(option);
            assert(next.drop_last() =~= done@);
            assert(next.last() == option);
            done@ = next;
            assert(all =~= done@ + rest@);
        }
    }
    assert(all =~= done@);
    assert(cloned(*defaults, start) && merged == with_options(start, options@));
    merged
}

} // verus!
