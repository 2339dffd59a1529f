//! From names to addresses.
use super::address::{IpAddress, IpAddressFamily};
use super::errors::{ErrorCode, SocketError, SocketResult};
use crate::errno::Platform;
use crate::error::IoError;
use crate::streams::Task;
use std::collections::VecDeque;
use vstd::prelude::*;

verus! {

/// A network, and what a guest may do on it.
#[derive(Clone, Copy, Debug, PartialEq, Eq, Structural)]
pub struct Network {
    /// Names the addresses that the embedder allows.
    pub pool: u64,
    pub allow_ip_name_lookup: bool,
}

/// What is to be looked up.
#[derive(Clone, Debug, PartialEq, Eq)]
pub struct Lookup {
    pub name: String,
    /// The only family of addresses that is wanted, if not both are.
    pub family: Option<IpAddressFamily>,
}

impl Network {
    /// Asks for the addresses of a name, where that is allowed.
    ///
    /// Whether addresses are included that cannot be reached is not taken
    /// into account.
    pub fn resolve_addresses(
        &self,
        name: String,
        family: Option<IpAddressFamily>,
        _include_unavailable: bool,
    ) -> (r: Result<Lookup, ErrorCode>)
        ensures
            r == if self.allow_ip_name_lookup {
                Ok::<Lookup, ErrorCode>(Lookup { name, family })
            } else {
                Err(ErrorCode::PermanentResolverFailure)
            },
    {
        if !self.allow_ip_name_lookup {
            return Err(ErrorCode::PermanentResolverFailure);
        }
        Ok(Lookup { name, family })
    }
}

impl Lookup {
    /// The address is wanted.
    pub open spec fn wants(self, address: IpAddress) -> bool {
        self.family is None || self.family == Some(address.family())
    }

    /// Of what was found, what is wanted, in the order in which it was found.
    pub fn found(&self, addresses: Vec<IpAddress>) -> (r: Vec<IpAddress>)
        ensures
            r@ == addresses@.filter(|address: IpAddress| self.wants(address)),
    {
        let ghost wanted = |address: IpAddress| self.wants(address);
        let mut out: Vec<IpAddress> = Vec::new();
        let mut i: usize = 0;
        while i < addresses.len()
            invariant
                i <= addresses@.len(),
                wanted == (|address: IpAddress| self.wants(address)),
                out@ == addresses@.take(i as int).filter(wanted),
            decreases addresses@.len() - i,
        {
            let address: IpAddress = addresses[i];
            let keep: bool = match self.family {
                None => true,
                Some(family) => family == address.family(),
            };
            proof {
                assert(addresses@.take(i + 1).drop_last() =~= addresses@.take(i as int));
                reveal(Seq::filter);
            }
            if keep {
                out.push(address);
            }
            i = i + 1;
        }
        assert(addresses@.take(i as int) =~= addresses@);
        out
    }
}

/// The addresses of a name, one by one.
#[derive(Debug)]
pub enum ResolveAddressStream {
    /// A task looks them up.
    Waiting(Task),
    /// Those that were not handed out; or why there are none.
    Done(Result<VecDeque<IpAddress>, IoError>),
}

/// [`ResolveAddressStream`], as far as it matters.
#[verifier::ext_equal]
pub enum ResolveView {
    Waiting(Task),
    Done(Result<Seq<IpAddress>, IoError>),
}

impl View for ResolveAddressStream {
    type V = ResolveView;

    open spec fn view(&self) -> ResolveView {
        match self {
            ResolveAddressStream::Waiting(task) => ResolveView::Waiting(*task),
            ResolveAddressStream::Done(Ok(rest)) => ResolveView::Done(Ok(rest@)),
            ResolveAddressStream::Done(Err(e)) => ResolveView::Done(Err(*e)),
        }
    }
}

/// What the task came to, if it has ended.
pub type Resolved = Option<Result<VecDeque<IpAddress>, IoError>>;

impl ResolveView {
    /// The stream once the task, if there is one, was asked.
    pub open spec fn joined(self, resolved: Resolved) -> ResolveView {
        match (self, resolved) {
            (ResolveView::Waiting(_), Some(Ok(addresses))) => ResolveView::Done(Ok(addresses@)),
            (ResolveView::Waiting(_), Some(Err(e))) => ResolveView::Done(Err(e)),
            _ => self,
        }
    }

    /// What the guest is told.
    pub open spec fn next(self, platform: Platform) -> SocketResult<Option<IpAddress>> {
        match self {
            ResolveView::Waiting(_) => Err(SocketError::Code(ErrorCode::WouldBlock)),
            ResolveView::Done(Ok(rest)) => Ok(
                if rest.len() > 0 {
                    Some(rest[0])
                } else {
                    None
                },
            ),
            ResolveView::Done(Err(e)) => Err(platform.errnos.socket_error_spec(e)),
        }
    }

    /// The stream once the guest was told. After an error there is nothing.
    pub open spec fn after_next(self) -> ResolveView {
        match self {
            ResolveView::Waiting(_) => self,
            ResolveView::Done(Ok(rest)) => ResolveView::Done(
                Ok(
                    if rest.len() > 0 {
                        rest.skip(1)
                    } else {
                        rest
                    },
                ),
            ),
            ResolveView::Done(Err(_)) => ResolveView::Done(Ok(Seq::empty())),
        }
    }
}

impl ResolveAddressStream {
    /// The next address; nothing once there is none left. `resolved` is what
    /// the task, if there is one, came to.
    pub fn resolve_next_address(&mut self, platform: &Platform, resolved: Resolved) -> (r:
        SocketResult<Option<IpAddress>>)
        ensures
            r == old(self)@.joined(resolved).next(*platform),
            final(self)@ == old(self)@.joined(resolved).after_next(),
    {
        if let ResolveAddressStream::Waiting(_) = self {
            match resolved {
                Some(result) => {
                    *self = ResolveAddressStream::Done(result);
                },
                None => return Err(SocketError::Code(ErrorCode::WouldBlock)),
            }
        }
        let taken: ResolveAddressStream = crate::error::replace(
            self,
            ResolveAddressStream::Done(Ok(VecDeque::new())),
        );
        match taken {
            ResolveAddressStream::Done(Ok(rest)) => {
                let mut rest: VecDeque<IpAddress> = rest;
                let next: Option<IpAddress> = rest.pop_front();
                *self = ResolveAddressStream::Done(Ok(rest));
                Ok(next)
            },
            ResolveAddressStream::Done(Err(e)) => Err(platform.errnos.socket_error(e)),
            waiting => {
                *self = waiting;
                Err(SocketError::Code(ErrorCode::WouldBlock))
            },
        }
    }

    /// The stream is ready: the task that it waited for, if any, came to
    /// `result`.
    pub fn ready(&mut self, result: Result<VecDeque<IpAddress>, IoError>)
        ensures
            final(self)@ == old(self)@.joined(Some(result)),
    {
        if let ResolveAddressStream::Waiting(_) = self {
            *self = ResolveAddressStream::Done(result);
        }
    }
}

/// An error is told once: after it there are no addresses.
pub proof fn law_lookup_error_is_told_once(e: IoError, platform: Platform, later: Resolved)
    ensures
        ({
            let stream = ResolveView::Done(Err(e));
            &&& stream.next(platform) == Err::<Option<IpAddress>, SocketError>(
                platform.errnos.socket_error_spec(e),
            )
            &&& stream.after_next().joined(later).next(platform) == Ok::<
                Option<IpAddress>,
                SocketError,
            >(None)
            &&& stream.after_next().joined(later).after_next() == stream.after_next()
        }),
{
}

/// The stream, `n` addresses later.
pub open spec fn after_addresses(stream: ResolveView, n: nat) -> ResolveView
    decreases n,
{
    if n == 0 {
        stream
    } else {
        after_addresses(stream, (n - 1) as nat).after_next()
    }
}

/// Every address is handed out once, in order, and then there is none.
pub proof fn law_addresses_in_order(addresses: Seq<IpAddress>, platform: Platform, n: nat)
    ensures
        after_addresses(ResolveView::Done(Ok(addresses)), n) == ResolveView::Done(
            Ok(
                if n <= addresses.len() {
                    addresses.skip(n as int)
                } else {
                    Seq::empty()
                },
            ),
        ),
        after_addresses(ResolveView::Done(Ok(addresses)), n).next(platform) == Ok::<
            Option<IpAddress>,
            SocketError,
        >(
            if n < addresses.len() {
                Some(addresses[n as int])
            } else {
                None
            },
        ),
    decreases n,
{
    if n == 0 {
        assert(addresses.skip(0) =~= addresses);
    } else {
        law_addresses_in_order(addresses, platform, (n - 1) as nat);
        if n <= addresses.len() {
            assert(addresses.skip(n - 1).skip(1) =~= addresses.skip(n as int));
        } else {
            if n - 1 == addresses.len() {
                assert(addresses.skip(n - 1) =~= Seq::empty());
            }
        }
    }
}

/// Where every item is wanted, all of them are kept.
proof fn lemma_filter_all<A>(items: Seq<A>, wanted: spec_fn(A) -> bool)
    requires
        forall|item: A| #[trigger] wanted(item),
    ensures
        items.filter(wanted) == items,
    decreases items.len(),
{
    reveal(Seq::filter);
    if items.len() > 0 {
        lemma_filter_all(items.drop_last(), wanted);
        assert(items.drop_last().push(items.last()) =~= items);
    }
}

/// Only addresses of the family that was asked for are handed out, and all of
/// them where none was.
pub proof fn law_lookup_family(lookup: Lookup, addresses: Seq<IpAddress>)
    ensures
        ({
            let found = addresses.filter(|address: IpAddress| lookup.wants(address));
            &&& forall|i: int|
                #![trigger found[i]]
                0 <= i < found.len() ==> lookup.wants(found[i]) && addresses.contains(found[i])
            &&& lookup.family is None ==> found == addresses
        }),
{
    let wanted = |address: IpAddress| lookup.wants(address);
    let found = addresses.filter(wanted);
    assert forall|i: int| #![trigger found[i]] 0 <= i < found.len() implies lookup.wants(found[i])
        && addresses.contains(found[i]) by {
        addresses.lemma_filter_pred(wanted, i);
        addresses.lemma_filter_contains_rev(wanted, found[i]);
    }
    if lookup.family is None {
        lemma_filter_all(addresses, wanted);
    }
}

/// A name is looked up as it is given, for the family that is given, where the
/// network allows that; elsewhere no name is found.
pub proof fn law_lookups_are_for_the_name_given(
    network: Network,
    name: String,
    family: Option<IpAddressFamily>,
    unavailable_too: bool,
    r: Result<Lookup, ErrorCode>,
)
    requires
        call_ensures(Network::resolve_addresses, (&network, name, family, unavailable_too), r),
    ensures
        r is Ok <==> network.allow_ip_name_lookup,
        r matches Ok(lookup) ==> lookup.name == name && lookup.family == family,
        r matches Err(e) ==> e == ErrorCode::PermanentResolverFailure,
{
}

/// Of the addresses that were found, those are kept that are of the family that
/// was asked for, or all of them where none was; their order stays. What is
/// found in two parts is what is found in the one and then in the other.
pub proof fn law_found_addresses_are_those_wanted(
    lookup: Lookup,
    one: Vec<IpAddress>,
    a: Vec<IpAddress>,
    b: Vec<IpAddress>,
    both: Vec<IpAddress>,
    found_one: Vec<IpAddress>,
    found_a: Vec<IpAddress>,
    found_b: Vec<IpAddress>,
    found_both: Vec<IpAddress>,
)
    requires
        one@.len() == 1,
        both@ == a@ + b@,
        call_ensures(Lookup::found, (&lookup, one), found_one),
        call_ensures(Lookup::found, (&lookup, a), found_a),
        call_ensures(Lookup::found, (&lookup, b), found_b),
        call_ensures(Lookup::found, (&lookup, both), found_both),
    ensures
        found_both@ == found_a@ + found_b@,
        match lookup.family {
            None => found_one@ == one@,
            Some(IpAddressFamily::Ipv4) => if one@[0] is Ipv4 {
                found_one@ == one@
            } else {
                found_one@.len() == 0
            },
            Some(IpAddressFamily::Ipv6) => if one@[0] is Ipv6 {
                found_one@ == one@
            } else {
                found_one@.len() == 0
            },
        },
{
    let wanted = |address: IpAddress| lookup.wants(address);
    Seq::filter_distributes_over_add(a@, b@, wanted);
    reveal_with_fuel(Seq::filter, 2);
    assert(one@.drop_last() =~= Seq::empty());
    assert(one@ =~= Seq::empty().push(one@[0]));
}

/// While the lookup goes on, the guest is told to wait and nothing changes. What
/// it has brought is handed out from the first address on, each once; an error
/// is told once, and then there is nothing more, as there is nothing after the
/// last address.
pub proof fn law_addresses_are_handed_out(
    stream: &mut ResolveAddressStream,
    platform: Platform,
    resolved: Resolved,
    told: SocketError,
    r: SocketResult<Option<IpAddress>>,
)
    requires
        call_ensures(
            ResolveAddressStream::resolve_next_address,
            (stream, &platform, resolved),
            r,
        ),
        old(stream)@ matches ResolveView::Done(Err(e)) ==> call_ensures(
            crate::errno::Errnos::socket_error,
            (&platform.errnos, e),
            told,
        ),
        old(stream)@ is Waiting ==> (resolved matches Some(Err(e)) ==> call_ensures(
            crate::errno::Errnos::socket_error,
            (&platform.errnos, e),
            told,
        )),
    ensures
        ({
            let waits = old(stream)@ is Waiting;
            let brought: Option<Result<Seq<IpAddress>, IoError>> = match (old(stream)@, resolved) {
                (ResolveView::Done(d), _) => Some(d),
                (ResolveView::Waiting(_), Some(Ok(addresses))) => Some(Ok(addresses@)),
                (ResolveView::Waiting(_), Some(Err(e))) => Some(Err(e)),
                (ResolveView::Waiting(_), None) => None,
            };
            match brought {
                None => {
                    &&& r == Err::<Option<IpAddress>, _>(SocketError::Code(ErrorCode::WouldBlock))
                    &&& final(stream)@ == old(stream)@
                },
                Some(Ok(addresses)) => {
                    &&& r matches Ok(next)
                    &&& next is None <==> addresses.len() == 0
                    &&& final(stream)@ matches ResolveView::Done(Ok(rest))
                    &&& next is None ==> rest.len() == 0
                    &&& next matches Some(address) ==> addresses == seq![address] + rest
                },
                Some(Err(_)) => {
                    &&& r == Err::<Option<IpAddress>, _>(told)
                    &&& final(stream)@ matches ResolveView::Done(Ok(rest)) && rest.len() == 0
                },
            }
        }),
{
    match old(stream)@.joined(resolved) {
        ResolveView::Done(Ok(addresses)) => {
            if addresses.len() > 0 {
                assert(addresses =~= seq![addresses[0]] + addresses.skip(1));
            }
        },
        _ => {},
    }
}

/// A stream that waits takes in what its lookup came to; one that does not wait
/// stays as it is.
pub proof fn law_lookups_are_taken_in(
    stream: &mut ResolveAddressStream,
    result: Result<VecDeque<IpAddress>, IoError>,
)
    requires
        call_ensures(ResolveAddressStream::ready, (stream, result), ()),
    ensures
        old(stream)@ is Done ==> final(stream)@ == old(stream)@,
        old(stream)@ is Waiting ==> match result {
            Ok(addresses) => final(stream)@ == ResolveView::Done(Ok(addresses@)),
            Err(e) => final(stream)@ == ResolveView::Done(Err(e)),
        },
{
}

} // verus!
