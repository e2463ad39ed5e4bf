use vstd::prelude::*;

use crate::principal::Principal;

verus! {

/// A permission tag that a principal may hold.
#[derive(Debug, Clone, Copy, PartialEq, Eq, Structural)]
pub enum Role {
    Admin,
    Minter,
}

/// One principal holding one role.
#[derive(Debug, Clone, Copy, PartialEq, Eq, Structural)]
pub struct Grant {
    pub holder: Principal,
    pub role: Role,
}

/// Which principals hold which roles.
pub struct RoleRegistry {
    grants: Vec<Grant>,
}

impl View for RoleRegistry {
    type V = Set<Grant>;

    closed spec fn view(&self) -> Set<Grant> {
        self.grants@.to_set()
    }
}

impl RoleRegistry {
    /// Each grant is listed once.
    pub closed spec fn wf(&self) -> bool {
        self.grants@.no_duplicates()
    }

    pub fn new() -> (r: RoleRegistry)
        ensures
            r.wf(),
            r@ == Set::<Grant>::empty(),
    {
        let r = RoleRegistry { grants: Vec::new() };
        assert(r@ =~= Set::<Grant>::empty());
        r
    }

    fn find(&self, g: Grant) -> (r: Option<usize>)
        ensures
            match r {
                Some(i) => i < self.grants@.len() && self.grants@[i as int] == g,
                None => !self.grants@.contains(g),
            },
    {
        let mut i: usize = 0;
        while i < self.grants.len()
            invariant
                0 <= i <= self.grants@.len(),
                forall|j: int| 0 <= j < i ==> self.grants@[j] != g,
            decreases self.grants@.len() - i,
        {
            if self.grants[i] == g {
                return Some(i);
            }
            i = i + 1;
        }
        None
    }

    /// Every grant, each once.
    pub fn to_vec(&self) -> (r: Vec<Grant>)
        ensures
            r@.to_set() == self@,
    {
        let mut r: Vec<Grant> = Vec::new();
        let mut i: usize = 0;
        while i < self.grants.len()
            invariant
                0 <= i <= self.grants@.len(),
                r@ == self.grants@.subrange(0, i as int),
            decreases self.grants@.len() - i,
        {
            r.push(self.grants[i]);
            i = i + 1;
            assert(r@ =~= self.grants@.subrange(0, i as int));
        }
        assert(r@ =~= self.grants@);
        r
    }

    /// Whether `holder` holds `role`; needs no authorization.
    pub fn has_role(&self, holder: Principal, role: Role) -> (b: bool)
        ensures
            b == self@.contains(Grant { holder, role }),
    {
        self.find(Grant { holder, role }).is_some()
    }

    /// Gives `holder` the role `role`; a role already held stays as it is.
    pub fn grant(&mut self, holder: Principal, role: Role)
        requires
            old(self).wf(),
        ensures
            final(self).wf(),
            final(self)@ == old(self)@.insert(Grant { holder, role }),
    {
        let g = Grant { holder, role };
        if self.find(g).is_none() {
            self.grants.push(g);
            assert(self@ =~= old(self)@.insert(g)) by {
                assert forall|x: Grant| self.grants@.contains(x) <==> (old(self).grants@.contains(x) || x == g) by {
                    if old(self).grants@.contains(x) {
                        let j = choose|j: int| 0 <= j < old(self).grants@.len() && old(self).grants@[j] == x;
                        assert(self.grants@[j] == x);
                    }
                    if x == g {
                        assert(self.grants@[self.grants@.len() - 1] == g);
                    }
                    if self.grants@.contains(x) {
                        let j = choose|j: int| 0 <= j < self.grants@.len() && self.grants@[j] == x;
                        if j < old(self).grants@.len() {
                            assert(old(self).grants@[j] == x);
                        }
                    }
                }
            }
        } else {
            assert(self@ =~= old(self)@.insert(g));
        }
    }

    /// Takes `role` from `holder`; returns whether it was held.
    pub fn revoke(&mut self, holder: Principal, role: Role) -> (held: bool)
        requires
            old(self).wf(),
        ensures
            final(self).wf(),
            held == old(self)@.contains(Grant { holder, role }),
            final(self)@ == old(self)@.remove(Grant { holder, role }),
    {
        let g = Grant { holder, role };
        match self.find(g) {
            None => {
                assert(self@ =~= old(self)@.remove(g));
                false
            },
            Some(i) => {
                self.grants.remove(i);
                let ghost s = old(self).grants@;
                assert(self.grants@ =~= s.remove(i as int));
                assert forall|x: Grant| self.grants@.contains(x) <==> (s.contains(x) && x != g) by {
                    if self.grants@.contains(x) {
                        let j = choose|j: int| 0 <= j < self.grants@.len() && self.grants@[j] == x;
                        if j < i {
                            assert(s[j] == x);
                        } else {
                            assert(s[j + 1] == x);
                        }
                    }
                    if s.contains(x) && x != g {
                        let j = choose|j: int| 0 <= j < s.len() && s[j] == x;
                        if j < i {
                            assert(self.grants@[j] == x);
                        } else {
                            assert(self.grants@[j - 1] == x);
                        }
                    }
                }
                assert(self@ =~= old(self)@.remove(g));
                assert(s.contains(g));
                true
            },
        }
    }
}

} // verus!
