//! The validated extraction layer: one generic bind-then-validate sequence,
//! parameterized by the transport location a value was bound from, so the
//! same implementation fronts path, query and body extraction.
//!
//! Binding failure and rule failure surface as the same request-validation
//! error kind; rule failures aggregate every violated rule into one message
//! rather than stopping at the first. A handler never sees a partially
//! valid value.

use vstd::prelude::*;
use vstd::string::*;

use crate::errors::ApiError;

verus! {

/// A type with declarative validation rules: `violations` names every rule
/// the value breaks, in rule order.
pub trait Validate: Sized {
    /// The messages of all violated rules, in declaration order.
    spec fn spec_violations(&self) -> Seq<Seq<char>>;

    /// Evaluates the rules.
    fn violations(&self) -> (r: Vec<String>)
        ensures
            r.deep_view() == self.spec_violations(),
    ;
}

/// Messages joined with a comma separator into one aggregate message.
pub open spec fn join_msgs(msgs: Seq<Seq<char>>) -> Seq<char>
    decreases msgs.len(),
{
    if msgs.len() == 0 {
        Seq::empty()
    } else if msgs.len() == 1 {
        msgs[0]
    } else {
        msgs[0] + ", "@ + join_msgs(msgs.drop_first())
    }
}

proof fn lemma_join_push(s: Seq<Seq<char>>, x: Seq<char>)
    ensures
        join_msgs(s.push(x)) == if s.len() == 0 {
            x
        } else {
            join_msgs(s) + ", "@ + x
        },
    decreases s.len(),
{
    if s.len() == 0 {
        assert(s.push(x) =~= seq![x]);
        assert(join_msgs(seq![x]) == x);
    } else {
        lemma_join_push(s.drop_first(), x);
        assert(s.push(x).drop_first() =~= s.drop_first().push(x));
        if s.len() == 1 {
            assert(join_msgs(s.push(x)) == s[0] + ", "@ + join_msgs(s.drop_first().push(x)));
            assert(join_msgs(s) + ", "@ + x =~= s[0] + ", "@ + x);
        } else {
            assert(join_msgs(s.push(x)) == s[0] + ", "@ + join_msgs(s.drop_first().push(x)));
            assert(s[0] + ", "@ + (join_msgs(s.drop_first()) + ", "@ + x) =~= (s[0] + ", "@
                + join_msgs(s.drop_first())) + ", "@ + x);
        }
    }
}

/// Joins rule messages into the aggregate message.
pub fn join_messages(msgs: &Vec<String>) -> (r: String)
    ensures
        r@ == join_msgs(msgs.deep_view()),
{
    let ghost all: Seq<Seq<char>> = msgs.deep_view();
    let mut out = String::new();
    let mut i: usize = 0;
    while i < msgs.len()
        invariant
            i <= msgs.len(),
            all == msgs.deep_view(),
            all.len() == msgs.len(),
            forall|j: int| 0 <= j < all.len() ==> all[j] == #[trigger] msgs@[j]@,
            out@ == join_msgs(all.take(i as int)),
        decreases msgs.len() - i,
    {
        if i > 0 {
            out.append(", ");
        }
        out.append(msgs[i].as_str());
        proof {
            lemma_join_push(all.take(i as int), all[i as int]);
            assert(all.take(i as int).push(all[i as int]) =~= all.take(i + 1));
        }
        i = i + 1;
    }
    proof {
        assert(all.take(msgs@.len() as int) =~= all);
    }
    out
}

/// The transport location a value is bound from.
#[derive(Debug, Clone, Copy, PartialEq, Eq, Structural)]
pub enum BindSource {
    Path,
    Query,
    Body,
}

/// The message prefix a binding failure at each location carries.
pub open spec fn bind_error_prefix(source: BindSource) -> Seq<char> {
    match source {
        BindSource::Path => "路径参数错误: "@,
        BindSource::Query => "查询参数错误: "@,
        BindSource::Body => "Body 参数错误: "@,
    }
}

fn bind_error_prefix_str(source: BindSource) -> (r: &'static str)
    ensures
        r@ == bind_error_prefix(source),
{
    match source {
        BindSource::Path => "路径参数错误: ",
        BindSource::Query => "查询参数错误: ",
        BindSource::Body => "Body 参数错误: ",
    }
}

/// The one bind-then-validate sequence behind every extraction location.
/// A binding failure carries the location's prefix and the transport's
/// detail; a rule failure carries the aggregate of every violated rule;
/// both are the request-validation error kind.
pub fn bind_and_validate<T: Validate>(bound: Result<T, String>, source: BindSource) -> (r: Result<
    T,
    ApiError,
>)
    ensures
        (match bound {
            Ok(v) => if v.spec_violations().len() == 0 {
                r matches Ok(w) && w == v
            } else {
                r matches Err(e) && e matches ApiError::ValidationError(m) && m@ == join_msgs(
                    v.spec_violations(),
                )
            },
            Err(d) => r matches Err(e) && e matches ApiError::ValidationError(m) && m@
                == bind_error_prefix(source) + d@,
        }),
{
    match bound {
        Ok(v) => {
            let broken = v.violations();
            if broken.len() == 0 {
                assert(v.spec_violations().len() == 0);
                Ok(v)
            } else {
                let m = join_messages(&broken);
                Err(ApiError::ValidationError(m))
            }
        },
        Err(d) => {
            let mut m = String::from_str(bind_error_prefix_str(source));
            m.append(d.as_str());
            Err(ApiError::ValidationError(m))
        },
    }
}

/// A value that passed its validation rules.
#[derive(Debug, Clone, PartialEq, Eq)]
pub struct Valid<T>(pub T);

/// A path-bound value that passed its validation rules.
#[derive(Debug, Clone, PartialEq, Eq)]
pub struct ValidPath<T>(pub T);

/// A query-bound value that passed its validation rules.
#[derive(Debug, Clone, PartialEq, Eq)]
pub struct ValidQuery<T>(pub T);

/// A body-bound value that passed its validation rules.
#[derive(Debug, Clone, PartialEq, Eq)]
pub struct ValidJson<T>(pub T);

/// A body-bound value before validation.
#[derive(Debug, Clone, PartialEq, Eq)]
pub struct Json<T>(pub T);

impl<T> Json<T> {
    /// The value the validation rules run over.
    pub fn get_validate(&self) -> (r: &T)
        ensures
            r == &self.0,
    {
        &self.0
    }
}

impl<T: Validate> Valid<T> {
    /// Admits only values that break no rule.
    pub fn new(value: T) -> (r: Result<Valid<T>, ApiError>)
        ensures
            (if value.spec_violations().len() == 0 {
                r matches Ok(w) && w.0 == value
            } else {
                r matches Err(e) && e matches ApiError::ValidationError(m) && m@ == join_msgs(
                    value.spec_violations(),
                )
            }),
    {
        match bind_and_validate(Ok(value), BindSource::Body) {
            Ok(v) => Ok(Valid(v)),
            Err(e) => Err(e),
        }
    }
}

impl<T: Validate> ValidPath<T> {
    /// Binds from a path segment set and validates.
    pub fn from_bound(bound: Result<T, String>) -> (r: Result<ValidPath<T>, ApiError>)
        ensures
            (match bound {
                Ok(v) => if v.spec_violations().len() == 0 {
                    r matches Ok(w) && w.0 == v
                } else {
                    r matches Err(e) && e matches ApiError::ValidationError(m) && m@ == join_msgs(
                        v.spec_violations(),
                    )
                },
                Err(d) => r matches Err(e) && e matches ApiError::ValidationError(m) && m@
                    == bind_error_prefix(BindSource::Path) + d@,
            }),
    {
        match bind_and_validate(bound, BindSource::Path) {
            Ok(v) => Ok(ValidPath(v)),
            Err(e) => Err(e),
        }
    }
}

impl<T: Validate> ValidQuery<T> {
    /// Binds from a query string and validates.
    pub fn from_bound(bound: Result<T, String>) -> (r: Result<ValidQuery<T>, ApiError>)
        ensures
            (match bound {
                Ok(v) => if v.spec_violations().len() == 0 {
                    r matches Ok(w) && w.0 == v
                } else {
                    r matches Err(e) && e matches ApiError::ValidationError(m) && m@ == join_msgs(
                        v.spec_violations(),
                    )
                },
                Err(d) => r matches Err(e) && e matches ApiError::ValidationError(m) && m@
                    == bind_error_prefix(BindSource::Query) + d@,
            }),
    {
        match bind_and_validate(bound, BindSource::Query) {
            Ok(v) => Ok(ValidQuery(v)),
            Err(e) => Err(e),
        }
    }
}

impl<T: Validate> ValidJson<T> {
    /// Binds from a request body and validates.
    pub fn from_bound(bound: Result<T, String>) -> (r: Result<ValidJson<T>, ApiError>)
        ensures
            (match bound {
                Ok(v) => if v.spec_violations().len() == 0 {
                    r matches Ok(w) && w.0 == v
                } else {
                    r matches Err(e) && e matches ApiError::ValidationError(m) && m@ == join_msgs(
                        v.spec_violations(),
                    )
                },
                Err(d) => r matches Err(e) && e matches ApiError::ValidationError(m) && m@
                    == bind_error_prefix(BindSource::Body) + d@,
            }),
    {
        match bind_and_validate(bound, BindSource::Body) {
            Ok(v) => Ok(ValidJson(v)),
            Err(e) => Err(e),
        }
    }
}

} // verus!
