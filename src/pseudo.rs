//! The adapter for the `pseudo` library: each scenario builds its mock
//! from `pseudo::Mock`, whose behaviour the wrappers below state.

use crate::suite::TestSuite;
use crate::verdict::Outcome;
use vstd::prelude::*;

verus! {

#[verifier::external_type_specification]
#[verifier::external_body]
#[verifier::reject_recursive_types(C)]
#[verifier::reject_recursive_types(R)]
pub struct ExPseudoMock<C, R>(pseudo::Mock<C, R>) where C: Clone, R: Clone;

/// The arguments that a mock was called with, first to last.
pub uninterp spec fn pseudo_calls(m: pseudo::Mock<i64, i64>) -> Seq<i64>;

/// The value that every call of a mock returns, where no function or
/// closure has been set to compute it.
pub uninterp spec fn pseudo_fixed_reply(m: pseudo::Mock<i64, i64>) -> Option<i64>;

/// Whether `successor` is the function that computes a mock's replies.
pub uninterp spec fn pseudo_uses_successor(m: pseudo::Mock<i64, i64>) -> bool;

/// The reply that `successor` computes.
pub open spec fn successor_spec(x: i64) -> i64 {
    if x < i64::MAX {
        (x + 1) as i64
    } else {
        x
    }
}

/// The next integer, where there is one.
pub fn successor(x: i64) -> (r: i64)
    ensures
        r == successor_spec(x),
{
    if x < i64::MAX {
        x + 1
    } else {
        x
    }
}

/// Relies on `pseudo::Mock::new`: no call is recorded, and every call
/// returns `v`.
#[verifier::external_body]
fn mock_new(v: i64) -> (r: pseudo::Mock<i64, i64>)
    ensures
        pseudo_calls(r) == Seq::<i64>::empty(),
        pseudo_fixed_reply(r) == Some(v),
        !pseudo_uses_successor(r),
{
    pseudo::Mock::new(v)
}

/// Relies on `pseudo::Mock::default`: a mock built with `i64::default()`,
/// that is 0, as its return value.
#[verifier::external_body]
fn mock_default() -> (r: pseudo::Mock<i64, i64>)
    ensures
        pseudo_calls(r) == Seq::<i64>::empty(),
        pseudo_fixed_reply(r) == Some(0i64),
        !pseudo_uses_successor(r),
{
    pseudo::Mock::default()
}

/// Relies on `pseudo::Mock::return_value`: it replaces the return value,
/// which calls return unless a function or closure is set.
#[verifier::external_body]
fn return_value(m: &mut pseudo::Mock<i64, i64>, v: i64)
    ensures
        pseudo_calls(*final(m)) == pseudo_calls(*old(m)),
        pseudo_fixed_reply(*old(m)) is Some ==> pseudo_fixed_reply(*final(m)) == Some(v),
        pseudo_fixed_reply(*old(m)) is None ==> pseudo_fixed_reply(*final(m)) is None,
        pseudo_uses_successor(*final(m)) == pseudo_uses_successor(*old(m)),
{
    m.return_value(v)
}

/// Relies on `pseudo::Mock::use_fn`: from now on calls return what
/// `successor` computes from their argument.
#[verifier::external_body]
fn use_successor(m: &mut pseudo::Mock<i64, i64>)
    ensures
        pseudo_calls(*final(m)) == pseudo_calls(*old(m)),
        pseudo_fixed_reply(*final(m)) is None,
        pseudo_uses_successor(*final(m)),
{
    m.use_fn(successor)
}

/// Relies on `pseudo::Mock::call`: it records the argument and returns the
/// return value, or what the function set by `use_fn` computes.
#[verifier::external_body]
fn call(m: &mut pseudo::Mock<i64, i64>, x: i64) -> (r: i64)
    requires
        pseudo_fixed_reply(*old(m)) is Some || pseudo_uses_successor(*old(m)),
    ensures
        pseudo_calls(*final(m)) == pseudo_calls(*old(m)).push(x),
        pseudo_fixed_reply(*final(m)) == pseudo_fixed_reply(*old(m)),
        pseudo_uses_successor(*final(m)) == pseudo_uses_successor(*old(m)),
        pseudo_fixed_reply(*old(m)) is Some ==> r == pseudo_fixed_reply(*old(m))->Some_0,
        pseudo_uses_successor(*old(m)) ==> r == successor_spec(x),
{
    m.call(x)
}

/// Relies on `pseudo::Mock::called`: whether any call is recorded.
#[verifier::external_body]
fn called(m: &pseudo::Mock<i64, i64>) -> (r: bool)
    ensures
        r == (pseudo_calls(*m).len() > 0),
{
    m.called()
}

/// Relies on `pseudo::Mock::num_calls`: the number of calls recorded.
#[verifier::external_body]
fn num_calls(m: &pseudo::Mock<i64, i64>) -> (r: usize)
    ensures
        r == pseudo_calls(*m).len(),
{
    m.num_calls()
}

/// Relies on `pseudo::Mock::calls`: the recorded arguments, in order.
#[verifier::external_body]
fn calls(m: &pseudo::Mock<i64, i64>) -> (r: Vec<i64>)
    ensures
        r@ == pseudo_calls(*m),
{
    m.calls()
}

/// Relies on `pseudo::Mock::called_with`: whether a call with `x` is recorded.
#[verifier::external_body]
fn called_with(m: &pseudo::Mock<i64, i64>, x: i64) -> (r: bool)
    ensures
        r == pseudo_calls(*m).contains(x),
{
    m.called_with(x)
}

/// Relies on `pseudo::Mock::reset_calls`: it forgets the recorded calls and
/// keeps the configured return value.
#[verifier::external_body]
fn reset_calls(m: &mut pseudo::Mock<i64, i64>)
    ensures
        pseudo_calls(*final(m)) == Seq::<i64>::empty(),
        pseudo_fixed_reply(*final(m)) == pseudo_fixed_reply(*old(m)),
        pseudo_uses_successor(*final(m)) == pseudo_uses_successor(*old(m)),
{
    m.reset_calls()
}

/// The arguments of a method of twelve parameters.
pub type TwelveArgs = (i8, i8, i8, i8, i8, i8, i8, i8, i8, i8, i8, i8);

/// The arguments that a mock of twelve parameters was called with, first
/// to last.
pub uninterp spec fn pseudo_calls12(m: pseudo::Mock<TwelveArgs, ()>) -> Seq<TwelveArgs>;

/// Relies on `pseudo::Mock::default`: no call is recorded.
#[verifier::external_body]
fn mock_default12() -> (r: pseudo::Mock<TwelveArgs, ()>)
    ensures
        pseudo_calls12(r) == Seq::<TwelveArgs>::empty(),
{
    pseudo::Mock::default()
}

/// Relies on `pseudo::Mock::call`: it records the arguments.
#[verifier::external_body]
fn call12(m: &mut pseudo::Mock<TwelveArgs, ()>, x: TwelveArgs)
    ensures
        pseudo_calls12(*final(m)) == pseudo_calls12(*old(m)).push(x),
{
    m.call(x)
}

/// Relies on `pseudo::Mock::called_with`: whether a call with `x` is recorded.
#[verifier::external_body]
fn called_with12(m: &pseudo::Mock<TwelveArgs, ()>, x: TwelveArgs) -> (r: bool)
    ensures
        r == pseudo_calls12(*m).contains(x),
{
    m.called_with(x)
}

/// A trait with associated types.
pub trait Keyed {
    type Key;
    type Value;

    spec fn ready(&self) -> bool;

    fn lookup(&mut self, key: Self::Key) -> (r: Self::Value)
        requires
            old(self).ready(),
        ensures
            final(self).ready(),
    ;
}

/// A trait with a type parameter.
pub trait Generic<T> {
    spec fn ready(&self) -> bool;

    fn take(&mut self, t: T) -> (r: i64)
        requires
            old(self).ready(),
        ensures
            final(self).ready(),
    ;
}

/// A trait, and another that extends it.
pub trait Base {
    spec fn ready(&self) -> bool;

    fn foo(&mut self) -> (r: i64)
        requires
            old(self).ready(),
        ensures
            final(self).ready(),
    ;
}

pub trait Extended: Base {
    fn bar(&mut self) -> (r: i64)
        requires
            old(self).ready(),
        ensures
            final(self).ready(),
    ;
}

/// A mock of two methods, `foo` and `bar`.
pub struct TwoMethods {
    foo: pseudo::Mock<i64, i64>,
    bar: pseudo::Mock<i64, i64>,
}

impl TwoMethods {
    pub closed spec fn ready(&self) -> bool {
        &&& pseudo_fixed_reply(self.foo) is Some
        &&& pseudo_fixed_reply(self.bar) is Some
    }

    /// The value that `foo` returns.
    pub closed spec fn foo_reply(&self) -> i64 {
        pseudo_fixed_reply(self.foo)->Some_0
    }

    /// The value that `bar` returns.
    pub closed spec fn bar_reply(&self) -> i64 {
        pseudo_fixed_reply(self.bar)->Some_0
    }

    /// A mock whose `foo` returns `f` and whose `bar` returns `b`.
    pub fn new(f: i64, b: i64) -> (r: TwoMethods)
        ensures
            r.ready(),
            r.foo_reply() == f,
            r.bar_reply() == b,
    {
        TwoMethods { foo: mock_new(f), bar: mock_new(b) }
    }

    pub fn call_foo(&mut self) -> (r: i64)
        requires
            old(self).ready(),
        ensures
            final(self).ready(),
            final(self).foo_reply() == old(self).foo_reply(),
            final(self).bar_reply() == old(self).bar_reply(),
            r == old(self).foo_reply(),
    {
        call(&mut self.foo, 0)
    }

    /// Consumes the mock through a call of `foo`.
    pub fn into_foo(self) -> (r: i64)
        requires
            self.ready(),
        ensures
            r == self.foo_reply(),
    {
        let mut m = self;
        call(&mut m.foo, 0)
    }

    pub fn call_bar(&mut self) -> (r: i64)
        requires
            old(self).ready(),
        ensures
            final(self).ready(),
            final(self).foo_reply() == old(self).foo_reply(),
            final(self).bar_reply() == old(self).bar_reply(),
            r == old(self).bar_reply(),
    {
        call(&mut self.bar, 0)
    }
}

impl Keyed for TwoMethods {
    type Key = i64;
    type Value = i64;

    open spec fn ready(&self) -> bool {
        TwoMethods::ready(self)
    }

    fn lookup(&mut self, key: i64) -> (r: i64)
        ensures
            final(self).foo_reply() == old(self).foo_reply(),
            final(self).bar_reply() == old(self).bar_reply(),
            r == old(self).foo_reply(),
    {
        call(&mut self.foo, key)
    }
}

impl Generic<i64> for TwoMethods {
    open spec fn ready(&self) -> bool {
        TwoMethods::ready(self)
    }

    fn take(&mut self, t: i64) -> (r: i64)
        ensures
            final(self).foo_reply() == old(self).foo_reply(),
            final(self).bar_reply() == old(self).bar_reply(),
            r == old(self).foo_reply(),
    {
        call(&mut self.foo, t)
    }
}

impl Base for TwoMethods {
    open spec fn ready(&self) -> bool {
        TwoMethods::ready(self)
    }

    fn foo(&mut self) -> (r: i64)
        ensures
            final(self).foo_reply() == old(self).foo_reply(),
            final(self).bar_reply() == old(self).bar_reply(),
            r == old(self).foo_reply(),
    {
        call(&mut self.foo, 0)
    }
}

impl Extended for TwoMethods {
    fn bar(&mut self) -> (r: i64)
        ensures
            final(self).foo_reply() == old(self).foo_reply(),
            final(self).bar_reply() == old(self).bar_reply(),
            r == old(self).bar_reply(),
    {
        call(&mut self.bar, 0)
    }
}

/// The outcome of a scenario that ran to its end.
pub open spec fn completed() -> Outcome {
    Outcome::Completed(None)
}

fn check(ok: bool, what: &str) -> (r: Outcome)
    ensures
        ok ==> r == completed(),
        !ok ==> r is Failed,
{
    if ok {
        Outcome::Completed(None)
    } else {
        Outcome::Failed(String::from_str(what))
    }
}

/// The library's smallest example: a mock told to return 42 returns it,
/// and remembers the argument that it was called with.
pub fn doctest() -> (r: Outcome)
    ensures
        r == completed(),
{
    let mut foo = mock_default();
    return_value(&mut foo, 42);
    let got = call(&mut foo, -1);
    let seen = called_with(&foo, -1);
    assert(pseudo_calls(foo)[0] == -1);
    check(got == 42 && seen, "the configured value was not returned")
}

/// A mock told to return `constant` returns it, whatever the argument.
pub fn return_constant_case(constant: i64, arg: i64) -> (r: i64)
    ensures
        r == constant,
{
    let mut foo = mock_default();
    return_value(&mut foo, constant);
    call(&mut foo, arg)
}

/// A mock expected never to be called, then called `invocations` times:
/// the expectation holds exactly when it was not called.
pub fn times_never_case(invocations: u64) -> (r: Outcome)
    ensures
        invocations == 0 ==> r == completed(),
        invocations > 0 ==> r is Failed,
{
    let mut foo = mock_default();
    let mut k: u64 = 0;
    while k < invocations
        invariant
            k <= invocations,
            pseudo_calls(foo).len() == k,
            pseudo_fixed_reply(foo) == Some(0i64),
        decreases invocations - k,
    {
        call(&mut foo, 0);
        k += 1;
    }
    check(!called(&foo), "a method expected never to be called was called")
}

/// A mock called `n` times counts `n` calls.
pub fn times_n_case(n: u32) -> (r: usize)
    ensures
        r == n,
{
    let mut foo = mock_default();
    let mut k: u32 = 0;
    while k < n
        invariant
            k <= n,
            pseudo_calls(foo).len() == k,
            pseudo_fixed_reply(foo) == Some(0i64),
        decreases n - k,
    {
        call(&mut foo, k as i64);
        k += 1;
    }
    num_calls(&foo)
}

/// A mock whose recorded calls are cleared between two rounds of calls
/// remembers the second round only.
pub fn checkpoint_case() -> (r: Outcome)
    ensures
        r == completed(),
{
    let mut foo = mock_default();
    call(&mut foo, 1);
    call(&mut foo, 2);
    let before = called_with(&foo, 1) && called_with(&foo, 2);
    assert(pseudo_calls(foo)[0] == 1 && pseudo_calls(foo)[1] == 2);
    reset_calls(&mut foo);
    call(&mut foo, 3);
    call(&mut foo, 4);
    let after = called_with(&foo, 3) && called_with(&foo, 4);
    let forgotten = !called_with(&foo, 1) && !called_with(&foo, 2);
    assert(pseudo_calls(foo)[0] == 3 && pseudo_calls(foo)[1] == 4);
    check(before && after && forgotten, "the checkpoint did not clear the calls")
}

/// A mock records the calls to it in order: one mock, one method.
pub fn sequence_case() -> (r: Outcome)
    ensures
        r is Completed && r->Completed_0 is Some && r->Completed_0->Some_0@ == "single method"@,
{
    let mut foo = mock_default();
    call(&mut foo, 1);
    call(&mut foo, 2);
    let seen = calls(&foo);
    if seen.len() == 2 && seen[0] == 1 && seen[1] == 2 {
        Outcome::Completed(Some(String::from_str("single method")))
    } else {
        Outcome::Failed(String::from_str("the calls were not recorded in order"))
    }
}

/// A mock of a trait with associated types answers as configured.
pub fn associated_types_case() -> (r: Outcome)
    ensures
        r == completed(),
{
    let mut m = TwoMethods::new(42, 0);
    let got = Keyed::lookup(&mut m, -1);
    check(got == 42, "the associated-type method did not answer as configured")
}

/// A mock of a generic trait answers as configured.
pub fn generic_trait_case() -> (r: Outcome)
    ensures
        r == completed(),
{
    let mut m = TwoMethods::new(42, 0);
    let got = Generic::<i64>::take(&mut m, -1);
    check(got == 42, "the generic method did not answer as configured")
}

/// A mock of a trait and of the trait that extends it answers both.
pub fn inherited_trait_case() -> (r: Outcome)
    ensures
        r == completed(),
{
    let mut m = TwoMethods::new(1, 2);
    let first = Base::foo(&mut m);
    let second = Extended::bar(&mut m);
    check(first == 1 && second == 2, "the inherited method did not answer as configured")
}

/// One mock that implements two traits answers through both.
pub fn multi_trait_case() -> (r: Outcome)
    ensures
        r == completed(),
{
    let mut m = TwoMethods::new(1, 2);
    let first = Keyed::lookup(&mut m, 0);
    let second = m.call_bar();
    check(first == 1 && second == 2, "one of the traits did not answer as configured")
}

/// A mock of a trait answers as configured.
pub fn mock_trait_case() -> (r: Outcome)
    ensures
        r == completed(),
{
    let mut m = TwoMethods::new(1, 0);
    let got = Base::foo(&mut m);
    check(got == 1, "the mocked method did not answer as configured")
}

/// A mock method that consumes its receiver answers as configured.
pub fn consume_self_case() -> (r: Outcome)
    ensures
        r == completed(),
{
    let m = TwoMethods::new(42, 0);
    let got = m.into_foo();
    check(got == 42, "the consuming method did not answer as configured")
}

/// A call is matched against a constant argument.
pub fn match_constant_case() -> (r: Outcome)
    ensures
        r == completed(),
{
    let mut foo = mock_default();
    call(&mut foo, -1);
    assert(pseudo_calls(foo)[0] == -1);
    check(called_with(&foo, -1), "the call with the constant was not recorded")
}

/// A call with any argument at all is accepted.
pub fn match_wildcard_case() -> (r: Outcome)
    ensures
        r == completed(),
{
    let mut foo = mock_default();
    call(&mut foo, -12352);
    check(called(&foo), "the call was not recorded")
}

/// A mock left unconfigured returns the type's default value.
pub fn return_default_case() -> (r: Outcome)
    ensures
        r == completed(),
{
    let mut foo = mock_default();
    let got = call(&mut foo, -1);
    check(got == 0, "the default value was not returned")
}

fn require_send<T: Send>(_t: &T) {
}

/// A mock can be handed to another thread.
pub fn send_case() -> (r: Outcome)
    ensures
        r == completed(),
{
    let m = TwoMethods::new(0, 0);
    require_send(&m);
    Outcome::Completed(None)
}

/// A mock whose method takes twelve arguments records them all.
pub fn many_args_case() -> (r: Outcome)
    ensures
        r is Completed && r->Completed_0 is Some && r->Completed_0->Some_0@ == "12"@,
{
    let mut foo = mock_default12();
    let args: TwelveArgs = (0, 1, 2, 3, 4, 5, 6, 7, 8, 9, 10, 11);
    call12(&mut foo, args);
    assert(pseudo_calls12(foo)[0] == args);
    if called_with12(&foo, args) {
        Outcome::Completed(Some(String::from_str("12")))
    } else {
        Outcome::Failed(String::from_str("the twelve arguments were not recorded"))
    }
}

/// A mock can be built for a trait that the scenario did not write for it.
pub fn external_trait_case() -> (r: Outcome)
    ensures
        r == completed(),
{
    let mut m = TwoMethods::new(7, 0);
    let got = Base::foo(&mut m);
    check(got == 7, "the mock of the trait did not answer as configured")
}

/// A generic struct, mocked: its method takes a value of its type parameter.
pub struct GenericMock<T> {
    foo: pseudo::Mock<i64, i64>,
    last: Option<T>,
}

impl<T> GenericMock<T> {
    pub closed spec fn ready(&self) -> bool {
        pseudo_fixed_reply(self.foo) is Some
    }

    /// The value that `foo` returns.
    pub closed spec fn reply(&self) -> i64 {
        pseudo_fixed_reply(self.foo)->Some_0
    }

    /// The argument of the latest call of `foo`.
    pub closed spec fn last(&self) -> Option<T> {
        self.last
    }

    /// A mock whose `foo` returns `v`.
    pub fn new(v: i64) -> (r: GenericMock<T>)
        ensures
            r.ready(),
            r.reply() == v,
            r.last() is None,
    {
        GenericMock { foo: mock_new(v), last: None }
    }

    pub fn foo(&mut self, t: T) -> (r: i64)
        requires
            old(self).ready(),
        ensures
            final(self).ready(),
            final(self).reply() == old(self).reply(),
            final(self).last() == Some(t),
            r == old(self).reply(),
    {
        self.last = Some(t);
        call(&mut self.foo, 0)
    }
}

/// A generic struct can be mocked.
pub fn generic_struct_case() -> (r: Outcome)
    ensures
        r == completed(),
{
    let mut m: GenericMock<i16> = GenericMock::new(42);
    let got = m.foo(-1);
    check(got == 42, "the generic struct's method did not answer as configured")
}

fn is_answer(x: i64) -> (r: bool)
    ensures
        r == (x == 42),
{
    x == 42
}

/// A call can be matched by an arbitrary function of its argument.
pub fn match_method_case() -> (r: Outcome)
    ensures
        r == completed(),
{
    let mut foo = mock_default();
    call(&mut foo, 42);
    let seen = calls(&foo);
    check(seen.len() == 1 && is_answer(seen[0]), "the call did not match the method")
}

/// A plain struct.
pub struct Bean;

impl Bean {
    pub fn eat(&self) {
    }
}

/// The mock of `Bean`: it counts the meals.
pub struct BeanMock {
    eat: pseudo::Mock<i64, i64>,
}

impl BeanMock {
    pub closed spec fn ready(&self) -> bool {
        pseudo_fixed_reply(self.eat) is Some
    }

    /// How many times `eat` was called.
    pub closed spec fn meals(&self) -> nat {
        pseudo_calls(self.eat).len()
    }

    pub fn new() -> (r: BeanMock)
        ensures
            r.ready(),
            r.meals() == 0,
    {
        BeanMock { eat: mock_default() }
    }

    pub fn eat(&mut self)
        requires
            old(self).ready(),
        ensures
            final(self).ready(),
            final(self).meals() == old(self).meals() + 1,
    {
        call(&mut self.eat, 0);
    }

    pub fn num_meals(&self) -> (r: usize)
        ensures
            r == self.meals(),
    {
        num_calls(&self.eat)
    }
}

/// A plain struct can be mocked.
pub fn mock_struct_case() -> (r: Outcome)
    ensures
        r == completed(),
{
    let mut mock = BeanMock::new();
    mock.eat();
    check(mock.num_meals() == 1, "the struct's method was not mocked")
}

/// A mock method returns a function of its argument.
pub fn return_call_with_args_case() -> (r: Outcome)
    ensures
        r == completed(),
{
    let mut foo = mock_default();
    use_successor(&mut foo);
    let got = call(&mut foo, 4);
    check(got == 5, "the reply was not computed from the argument")
}

/// The state that a trait's static method works on, handed to it rather
/// than kept in a global.
pub struct StaticFixture {
    bar: pseudo::Mock<i64, i64>,
}

impl StaticFixture {
    pub closed spec fn ready(&self) -> bool {
        pseudo_fixed_reply(self.bar) is Some
    }

    /// The value that the static method returns.
    pub closed spec fn reply(&self) -> i64 {
        pseudo_fixed_reply(self.bar)->Some_0
    }

    pub fn new(v: i64) -> (r: StaticFixture)
        ensures
            r.ready(),
            r.reply() == v,
    {
        StaticFixture { bar: mock_new(v) }
    }
}

/// A trait with a static method.
pub trait WithStatic {
    fn shared(fixture: &mut StaticFixture) -> (r: i64)
        requires
            old(fixture).ready(),
        ensures
            final(fixture).ready(),
    ;
}

impl WithStatic for TwoMethods {
    fn shared(fixture: &mut StaticFixture) -> (r: i64)
        ensures
            r == old(fixture).reply(),
    {
        call(&mut fixture.bar, 0)
    }
}

/// A trait with a static method can be mocked, the static method's mock
/// living in a fixture.
pub fn static_method_case() -> (r: Outcome)
    ensures
        r == completed(),
{
    let mut fixture = StaticFixture::new(3);
    let mut m = TwoMethods::new(2, 0);
    let first = Base::foo(&mut m);
    let second = <TwoMethods as WithStatic>::shared(&mut fixture);
    check(first == 2 && second == 3, "the static method did not answer as configured")
}

/// The adapter for `pseudo`.
pub struct Pseudo;

impl TestSuite for Pseudo {
    fn name() -> (r: String)
        ensures
            r@ == "pseudo"@,
    {
        String::from_str("pseudo")
    }

    fn package() -> (r: String)
        ensures
            r@ == "pseudo"@,
    {
        String::from_str("pseudo")
    }

    fn associated_types() -> (r: Outcome)
        ensures
            r == completed(),
    {
        associated_types_case()
    }

    fn checkpoint() -> (r: Outcome)
        ensures
            r == completed(),
    {
        checkpoint_case()
    }

    fn reference_parameters() -> (r: Outcome)
        ensures
            r == Outcome::Unsupported,
    {
        // Arguments must be 'static.
        Outcome::Unsupported
    }

    fn consume_parameters() -> (r: Outcome)
        ensures
            r == Outcome::Unsupported,
    {
        // Arguments must be Clone.
        Outcome::Unsupported
    }

    fn consume_self() -> (r: Outcome)
        ensures
            r == completed(),
    {
        consume_self_case()
    }

    fn external_trait() -> (r: Outcome)
        ensures
            r == completed(),
    {
        external_trait_case()
    }

    fn foreign() -> (r: Outcome)
        ensures
            r == Outcome::Unsupported,
    {
        Outcome::Unsupported
    }

    fn generic_method() -> (r: Outcome)
        ensures
            r == Outcome::Unsupported,
    {
        Outcome::Unsupported
    }

    fn generic_return() -> (r: Outcome)
        ensures
            r == Outcome::Unsupported,
    {
        Outcome::Unsupported
    }

    fn generic_struct() -> (r: Outcome)
        ensures
            r == completed(),
    {
        generic_struct_case()
    }

    fn generic_trait() -> (r: Outcome)
        ensures
            r == completed(),
    {
        generic_trait_case()
    }

    fn inherited_trait() -> (r: Outcome)
        ensures
            r == completed(),
    {
        inherited_trait_case()
    }

    fn match_method() -> (r: Outcome)
        ensures
            r == completed(),
    {
        match_method_case()
    }

    fn mock_struct() -> (r: Outcome)
        ensures
            r == completed(),
    {
        mock_struct_case()
    }

    fn mock_trait() -> (r: Outcome)
        ensures
            r == completed(),
    {
        mock_trait_case()
    }

    fn multi_trait() -> (r: Outcome)
        ensures
            r == completed(),
    {
        multi_trait_case()
    }

    fn return_call_with_args() -> (r: Outcome)
        ensures
            r == completed(),
    {
        return_call_with_args_case()
    }

    fn return_lifetime() -> (r: Outcome)
        ensures
            r == Outcome::Unsupported,
    {
        // Return values must be Clone.
        Outcome::Unsupported
    }

    fn return_owned() -> (r: Outcome)
        ensures
            r == Outcome::Unsupported,
    {
        // Return values must be Clone.
        Outcome::Unsupported
    }

    fn return_parameters() -> (r: Outcome)
        ensures
            r == Outcome::Unsupported,
    {
        Outcome::Unsupported
    }

    fn send() -> (r: Outcome)
        ensures
            r == completed(),
    {
        send_case()
    }

    fn static_method() -> (r: Outcome)
        ensures
            r == completed(),
    {
        static_method_case()
    }

    fn times_range() -> (r: Outcome)
        ensures
            r == Outcome::Unsupported,
    {
        Outcome::Unsupported
    }

    fn derive() -> (r: Outcome)
        ensures
            r == Outcome::Unsupported,
    {
        Outcome::Unsupported
    }

    fn fallback() -> (r: Outcome)
        ensures
            r == Outcome::Unsupported,
    {
        Outcome::Unsupported
    }

    fn match_combo() -> (r: Outcome)
        ensures
            r == Outcome::Unsupported,
    {
        Outcome::Unsupported
    }

    fn match_constant() -> (r: Outcome)
        ensures
            r == completed(),
    {
        match_constant_case()
    }

    fn match_operator() -> (r: Outcome)
        ensures
            r == Outcome::Unsupported,
    {
        Outcome::Unsupported
    }

    fn match_pattern() -> (r: Outcome)
        ensures
            r == Outcome::Unsupported,
    {
        Outcome::Unsupported
    }

    fn match_range() -> (r: Outcome)
        ensures
            r == Outcome::Unsupported,
    {
        Outcome::Unsupported
    }

    fn match_wildcard() -> (r: Outcome)
        ensures
            r == completed(),
    {
        match_wildcard_case()
    }

    fn modules() -> (r: Outcome)
        ensures
            r == Outcome::Unsupported,
    {
        Outcome::Unsupported
    }

    fn return_constant() -> (r: Outcome)
        ensures
            r == completed(),
    {
        check(return_constant_case(42, 0) == 42, "the constant was not returned")
    }

    fn return_default() -> (r: Outcome)
        ensures
            r == completed(),
    {
        return_default_case()
    }

    fn return_panic() -> (r: Outcome)
        ensures
            r == Outcome::Unsupported,
    {
        Outcome::Unsupported
    }

    fn times_once() -> (r: Outcome)
        ensures
            r == Outcome::Unsupported,
    {
        Outcome::Unsupported
    }

    fn times_any() -> (r: Outcome)
        ensures
            r == Outcome::Unsupported,
    {
        Outcome::Unsupported
    }

    fn times_n() -> (r: Outcome)
        ensures
            r == completed(),
    {
        check(times_n_case(2) == 2, "the calls were not counted")
    }

    fn times_never() -> (r: Outcome)
        ensures
            r == completed(),
    {
        times_never_case(0)
    }

    fn many_args() -> (r: Outcome)
        ensures
            r is Completed && r->Completed_0 is Some && r->Completed_0->Some_0@ == "12"@,
    {
        many_args_case()
    }

    fn sequence() -> (r: Outcome)
        ensures
            r is Completed && r->Completed_0 is Some && r->Completed_0->Some_0@
                == "single method"@,
    {
        sequence_case()
    }

    fn where_clause() -> (r: Outcome)
        ensures
            r == Outcome::Unsupported,
    {
        Outcome::Unsupported
    }
}

} // verus!
