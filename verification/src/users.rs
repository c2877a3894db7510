//! The user store: names and passwords loaded from a JSON document, with
//! an exact-equality authorization check. A repeated name keeps every
//! entry, but the last one wins.

use vstd::prelude::*;

use crate::records::record_field_spec;
use crate::records::record_field_value;
use crate::records::string_records_of;

verus! {

/// The password of the last entry for `name`, if any.
pub open spec fn last_password_for(users: Seq<(Seq<char>, Seq<char>)>, name: Seq<char>) -> Option<
    Seq<char>,
>
    decreases users.len(),
{
    if users.len() == 0 {
        None
    } else if users.last().0 == name {
        Some(users.last().1)
    } else {
        last_password_for(users.drop_last(), name)
    }
}

/// A record that holds both fields a user needs.
pub open spec fn user_record_complete(rec: Seq<(Seq<char>, Seq<char>)>) -> bool {
    &&& record_field_spec(rec, "username"@) is Some
    &&& record_field_spec(rec, "password"@) is Some
}

/// Every record complete.
pub open spec fn all_user_records_complete(recs: Seq<Seq<(Seq<char>, Seq<char>)>>) -> bool {
    forall|i: int| 0 <= i < recs.len() ==> user_record_complete(#[trigger] recs[i])
}

/// The entries model the records, in order.
pub open spec fn users_model_records(
    users: Seq<(Seq<char>, Seq<char>)>,
    recs: Seq<Seq<(Seq<char>, Seq<char>)>>,
) -> bool {
    &&& users.len() == recs.len()
    &&& forall|i: int|
        0 <= i < recs.len() ==> {
            &&& Some(#[trigger] users[i].0) == record_field_spec(recs[i], "username"@)
            &&& Some(users[i].1) == record_field_spec(recs[i], "password"@)
        }
}

/// Why a load was refused.
#[derive(Clone, Copy, Debug, PartialEq, Eq, Structural)]
pub enum UsersLoadError {
    /// The document is not a JSON array of flat string-valued objects.
    NotRecords,
    /// A record lacks `username` or `password`.
    RecordMissingField,
}

/// The user store.
pub struct Users {
    users: Vec<(String, String)>,
}

impl Users {
    /// The entries, as (name, password) pairs in load order.
    pub closed spec fn spec_users(&self) -> Seq<(Seq<char>, Seq<char>)> {
        self.users.deep_view()
    }

    /// Build the store from the contents of the users file, as read by
    /// the caller; `None` when the file could not be opened at all,
    /// which yields an empty store.
    pub fn from_file(contents: Option<&str>) -> (r: Result<Users, UsersLoadError>)
        ensures
            match r {
                Ok(u) => match contents {
                    Some(c) => {
                        &&& string_records_of(c@) matches Some(recs)
                        &&& all_user_records_complete(recs)
                        &&& users_model_records(u.spec_users(), recs)
                    },
                    None => u.spec_users().len() == 0,
                },
                Err(e) => {
                    &&& contents matches Some(c)
                    &&& match e {
                        UsersLoadError::NotRecords => string_records_of(c@) is None,
                        UsersLoadError::RecordMissingField => string_records_of(c@)
                            matches Some(recs) && !all_user_records_complete(recs),
                    }
                },
            },
    {
        let s: &str = match contents {
            Some(s) => s,
            None => {
                return Ok(Users { users: Vec::new() });
            },
        };
        let records: Vec<Vec<(String, String)>> = match crate::records::parse_string_records(s) {
            Some(v) => v,
            None => {
                return Err(UsersLoadError::NotRecords);
            },
        };
        let ghost recs = string_records_of(s@).unwrap();
        let mut users: Vec<(String, String)> = Vec::new();
        let n: usize = records.len();
        let mut k: usize = 0;
        while k < n
            invariant
                k <= n,
                n == records@.len(),
                contents == Some(s),
                string_records_of(s@) == Some(recs),
                records.deep_view() == recs,
                records.deep_view().len() == n,
                forall|j: int| 0 <= j < k ==> user_record_complete(#[trigger] recs[j]),
                users_model_records(users.deep_view(), recs.take(k as int)),
                users.deep_view().len() == k,
            decreases n - k,
        {
            proof {
                assert(records.deep_view()[k as int] == records@[k as int].deep_view());
            }
            let name: String = match record_field_value(&records[k], "username") {
                Some(v) => v,
                None => {
                    proof {
                        assert(recs[k as int] == records@[k as int].deep_view());
                        assert(!user_record_complete(recs[k as int]));
                        assert(!all_user_records_complete(recs));
                    }
                    return Err(UsersLoadError::RecordMissingField);
                },
            };
            let pass: String = match record_field_value(&records[k], "password") {
                Some(v) => v,
                None => {
                    proof {
                        assert(recs[k as int] == records@[k as int].deep_view());
                        assert(!user_record_complete(recs[k as int]));
                        assert(!all_user_records_complete(recs));
                    }
                    return Err(UsersLoadError::RecordMissingField);
                },
            };
            let ghost prev_users = users.deep_view();
            users.push((name, pass));
            proof {
                assert(users.deep_view() =~= prev_users.push(
                    (users@[k as int].0@, users@[k as int].1@),
                ));
                assert forall|i: int| 0 <= i < k + 1 implies {
                    &&& Some(#[trigger] users.deep_view()[i].0) == record_field_spec(
                        recs.take(k + 1)[i],
                        "username"@,
                    )
                    &&& Some(users.deep_view()[i].1) == record_field_spec(
                        recs.take(k + 1)[i],
                        "password"@,
                    )
                } by {
                    if i < k {
                        assert(users.deep_view()[i] == prev_users[i]);
                        assert(recs.take(k + 1)[i] == recs.take(k as int)[i]);
                        assert(Some(prev_users[i].0) == record_field_spec(
                            recs.take(k as int)[i],
                            "username"@,
                        ));
                    } else {
                        assert(recs.take(k + 1)[i] == recs[k as int]);
                        assert(recs[k as int] == records@[k as int].deep_view());
                    }
                }
                assert(users_model_records(users.deep_view(), recs.take(k + 1)));
            }
            k = k + 1;
        }
        proof {
            assert(recs.take(n as int) =~= recs);
        }
        Ok(Users { users })
    }

    /// Whether `maybe_password` is exactly the password of the last
    /// entry for `username`.
    pub fn authorize(&self, username: &str, maybe_password: &str) -> (r: bool)
        ensures
            r == match last_password_for(self.spec_users(), username@) {
                Some(p) => p == maybe_password@,
                None => false,
            },
    {
        let n: usize = self.users.len();
        let mut i: usize = n;
        proof {
            lemma_last_password_for(self.spec_users(), username@);
            assert(self.spec_users().len() == n);
        }
        while i > 0
            invariant
                i <= n,
                n == self.users@.len(),
                self.spec_users().len() == n,
                forall|j: int|
                    0 <= j < n ==> self.spec_users()[j] == (self.users@[j].0@, self.users@[j].1@),
                forall|j: int| i <= j < n ==> self.spec_users()[j].0 != username@,
            decreases i,
        {
            if crate::strutil::str_eq(self.users[i - 1].0.as_str(), username) {
                proof {
                    lemma_last_password_for(self.spec_users(), username@);
                    assert(self.spec_users()[i - 1].0 == username@);
                    match last_password_for(self.spec_users(), username@) {
                        Some(p) => {
                            let iw = choose|iw: int|
                                {
                                    &&& 0 <= iw < self.spec_users().len()
                                    &&& #[trigger] self.spec_users()[iw].0 == username@
                                    &&& self.spec_users()[iw].1 == p
                                    &&& forall|j: int|
                                        iw < j < self.spec_users().len()
                                            ==> self.spec_users()[j].0 != username@
                                };
                            assert(iw >= i - 1);
                            assert(iw < i);
                            assert(p == self.spec_users()[i - 1].1);
                        },
                        None => {
                            assert(false);
                        },
                    }
                }
                return crate::strutil::str_eq(self.users[i - 1].1.as_str(), maybe_password);
            }
            i = i - 1;
        }
        proof {
            lemma_last_password_for(self.spec_users(), username@);
            if last_password_for(self.spec_users(), username@) is Some {
            }
        }
        false
    }
}

/// `last_password_for` points at the last entry for the name, and is
/// `None` exactly when no entry holds it.
pub proof fn lemma_last_password_for(users: Seq<(Seq<char>, Seq<char>)>, name: Seq<char>)
    ensures
        match last_password_for(users, name) {
            Some(p) => exists|i: int|
                {
                    &&& 0 <= i < users.len()
                    &&& #[trigger] users[i].0 == name
                    &&& users[i].1 == p
                    &&& forall|j: int| i < j < users.len() ==> users[j].0 != name
                },
            None => forall|j: int| 0 <= j < users.len() ==> users[j].0 != name,
        },
    decreases users.len(),
{
    if users.len() > 0 && users.last().0 != name {
        lemma_last_password_for(users.drop_last(), name);
        match last_password_for(users, name) {
            Some(p) => {
                let i = choose|i: int|
                    {
                        &&& 0 <= i < users.drop_last().len()
                        &&& #[trigger] users.drop_last()[i].0 == name
                        &&& users.drop_last()[i].1 == p
                        &&& forall|j: int|
                            i < j < users.drop_last().len() ==> users.drop_last()[j].0 != name
                    };
                assert(users[i].0 == name && users[i].1 == p);
                assert forall|j: int| i < j < users.len() implies users[j].0 != name by {
                    if j < users.len() - 1 {
                        assert(users.drop_last()[j] == users[j]);
                    }
                }
            },
            None => {
                assert forall|j: int| 0 <= j < users.len() implies users[j].0 != name by {
                    if j < users.len() - 1 {
                        assert(users.drop_last()[j] == users[j]);
                    }
                }
            },
        }
    }
}

} // verus!
