use std::collections::HashMap;
use vstd::prelude::*;
use vstd::utf8::{decode_utf8, valid_utf8};

use crate::blocker::{blocks, request_ok, AdvtBlocker};
use crate::errors::RustException;
use crate::marshal::{decode_text, decoded_rules, extract_list_str};

verus! {

broadcast use vstd::std_specs::hash::group_hash_axioms;

/// The largest handle value the registry hands out.
pub const MAX_HANDLE: i64 = 0x7fff_ffff_ffff_ffff;

/// Filtering engines keyed by the handles the host runtime holds.
///
/// Handles come from a counter that only grows, so a handle is never given
/// to a second instance, even after the first one is destroyed.
pub struct Registry {
    instances: HashMap<i64, AdvtBlocker>,
    next_handle: i64,
}

impl View for Registry {
    /// Each present handle, with the rule lines of its instance.
    type V = Map<i64, Seq<Seq<char>>>;

    closed spec fn view(&self) -> Map<i64, Seq<Seq<char>>> {
        self.instances@.map_values(|b: AdvtBlocker| b.rules())
    }
}

impl Registry {
    /// The handle the next successful creation returns.
    pub closed spec fn next_handle(&self) -> int {
        self.next_handle as int
    }

    /// Every present handle was handed out before, and handles start at 1.
    pub closed spec fn wf(&self) -> bool {
        &&& 1 <= self.next_handle
        &&& forall|h: i64| #[trigger] self.instances@.contains_key(h) ==> 1 <= h < self.next_handle
    }

    /// Whether `h` was handed out by this registry at some point.
    pub open spec fn issued(&self, h: i64) -> bool {
        1 <= h < self.next_handle()
    }

    /// An empty registry.
    pub fn new() -> (r: Registry)
        ensures
            r.wf(),
            r@ == Map::<i64, Seq<Seq<char>>>::empty(),
            r.next_handle() == 1,
    {
        let r = Registry { instances: HashMap::new(), next_handle: 1 };
        assert(r@ =~= Map::<i64, Seq<Seq<char>>>::empty());
        r
    }

    /// Stores the instance under a fresh handle and returns the handle; fails
    /// only once every handle value has been handed out.
    pub fn create(&mut self, instance: AdvtBlocker) -> (r: Result<i64, RustException>)
        requires
            old(self).wf(),
        ensures
            final(self).wf(),
            r is Ok <==> old(self).next_handle() < MAX_HANDLE,
            r is Ok ==> {
                let h = r->Ok_0;
                &&& h == old(self).next_handle()
                &&& !old(self).issued(h)
                &&& !old(self)@.contains_key(h)
                &&& final(self)@ == old(self)@.insert(h, instance.rules())
                &&& final(self).next_handle() == h + 1
            },
            r is Err ==> r->Err_0 is InstanceAccess && final(self)@ == old(self)@
                && final(self).next_handle() == old(self).next_handle(),
    {
        if self.next_handle == MAX_HANDLE {
            return Err(RustException::InstanceAccess("no handle value is left".to_string()));
        }
        let handle = self.next_handle;
        let ghost rules = instance.rules();
        self.instances.insert(handle, instance);
        self.next_handle = handle + 1;
        assert(self@ =~= old(self)@.insert(handle, rules));
        Ok(handle)
    }

    /// Removes and drops the instance of `handle`; fails when there is none.
    pub fn destroy(&mut self, handle: i64) -> (r: Result<bool, RustException>)
        requires
            old(self).wf(),
        ensures
            final(self).wf(),
            r is Ok <==> old(self)@.contains_key(handle),
            r is Ok ==> r->Ok_0,
            r is Err ==> r->Err_0 is InstanceAccess,
            final(self)@ == old(self)@.remove(handle),
            final(self).next_handle() == old(self).next_handle(),
    {
        let removed = self.instances.remove(&handle);
        assert(self@ =~= old(self)@.remove(handle));
        match removed {
            Some(_) => Ok(true),
            None => Err(RustException::InstanceAccess("no instance for this handle".to_string())),
        }
    }

    /// Evaluates the request triple against the instance of `handle`.
    pub fn evaluate(&self, handle: i64, url: &str, src_url: &str, req_type: &str) -> (r: Result<bool, RustException>)
        requires
            self.wf(),
        ensures
            !self@.contains_key(handle) ==> r is Err && r->Err_0 is InstanceAccess,
            self@.contains_key(handle) ==> {
                &&& r is Ok <==> request_ok(url@, src_url@, req_type@)
                &&& r is Ok ==> r->Ok_0 == blocks(self@[handle], seq![url@, src_url@, req_type@])
                &&& r is Err ==> r->Err_0 is CreateRequest
                &&& url@.len() == 0 ==> r is Err
                &&& self@[handle].len() == 0 ==> r != Ok::<bool, RustException>(true)
            },
    {
        match self.instances.get(&handle) {
            Some(advt_blocker) => advt_blocker.check_network_urls(url, src_url, req_type),
            None => Err(RustException::InstanceAccess("no instance for this handle".to_string())),
        }
    }

    /// Decodes the three host strings, then evaluates them against the
    /// instance of `handle`.
    pub fn check_net_urls(&self, handle: i64, url: &[u8], src_url: &[u8], req_type: &[u8]) -> (r: Result<bool, RustException>)
        requires
            self.wf(),
        ensures
            !(valid_utf8(url@) && valid_utf8(src_url@) && valid_utf8(req_type@))
                <==> (r is Err && r->Err_0 is ExtractParameter),
            valid_utf8(url@) && valid_utf8(src_url@) && valid_utf8(req_type@) ==> {
                let (u, s, t) = (decode_utf8(url@), decode_utf8(src_url@), decode_utf8(req_type@));
                &&& !self@.contains_key(handle) ==> r is Err && r->Err_0 is InstanceAccess
                &&& self@.contains_key(handle) ==> {
                    &&& r is Ok <==> request_ok(u, s, t)
                    &&& r is Ok ==> r->Ok_0 == blocks(self@[handle], seq![u, s, t])
                    &&& r is Err ==> r->Err_0 is CreateRequest
                    &&& u.len() == 0 ==> r is Err
                    &&& self@[handle].len() == 0 ==> r != Ok::<bool, RustException>(true)
                }
            },
    {
        let url_str = match decode_text(url) {
            Ok(s) => s,
            Err(e) => return Err(e),
        };
        let src_url_str = match decode_text(src_url) {
            Ok(s) => s,
            Err(e) => return Err(e),
        };
        let req_type_str = match decode_text(req_type) {
            Ok(s) => s,
            Err(e) => return Err(e),
        };
        self.evaluate(handle, url_str.as_str(), src_url_str.as_str(), req_type_str.as_str())
    }
}

/// Builds an instance from the elements of a host rule list, outside any
/// lock; elements that do not decode are skipped and returned beside it.
pub fn build_instance(items: &Vec<Option<Vec<u8>>>) -> (r: (AdvtBlocker, Vec<RustException>))
    ensures
        r.0.rules() == decoded_rules(items@),
{
    let (rules, skipped) = extract_list_str(items);
    (AdvtBlocker::new(rules), skipped)
}

/// A handle the registry never handed out names no instance, so evaluating
/// or destroying it fails.
pub proof fn lemma_unissued_handle_absent(r: Registry, h: i64)
    requires
        r.wf(),
        !r.issued(h),
    ensures
        !r@.contains_key(h),
{
}

/// Of two destructions of a present handle only the first succeeds: after
/// it the handle names no instance.
pub proof fn lemma_destroy_once(r: Registry, h: i64)
    requires
        r.wf(),
        r@.contains_key(h),
    ensures
        !r@.remove(h).contains_key(h),
{
}

/// A destroyed handle stays absent: the next creation stores its instance
/// under another handle.
pub proof fn lemma_destroyed_stays_absent(r: Registry, h: i64, rules: Seq<Seq<char>>)
    requires
        r.wf(),
        r.issued(h),
        !r@.contains_key(h),
    ensures
        !r@.insert(r.next_handle() as i64, rules).contains_key(h),
{
}

/// Creations in turn never share a handle: every handle handed out before
/// differs from the one the next creation returns, which is absent.
pub proof fn lemma_created_handles_distinct(r: Registry, earlier: i64)
    requires
        r.wf(),
        r.issued(earlier),
    ensures
        earlier != r.next_handle(),
        r.next_handle() <= MAX_HANDLE ==> !r@.contains_key(r.next_handle() as i64),
{
}

} // verus!
