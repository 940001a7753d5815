//! The scope of the todo service: the shared handles, and the table that
//! binds each operation to a method and a path.

use std::sync::Arc;
use vstd::prelude::*;
use vstd::string::StringExecFns;

verus! {

/// The HTTP method of a route.
#[derive(Clone, Copy, Debug, PartialEq, Eq, Structural)]
pub enum Method {
    Get,
    Post,
}

/// One of the four operations of the service.
#[derive(Clone, Copy, Debug, PartialEq, Eq, Structural)]
pub enum Operation {
    GetInfo,
    SendMail,
    AddTodo,
    CompleteTodo,
}

/// The handles that every handler shares: the configuration and the
/// controller. Nothing changes them after `init`.
#[derive(Debug)]
pub struct TodoRest<Cfg, Ctl> {
    pub cnfg: Arc<Cfg>,
    pub todo_cnr: Arc<Ctl>,
}

/// The scope that `init` describes: a path prefix, the shared handles, and
/// the operations that are routed under the prefix.
pub struct TodoScope<Cfg, Ctl> {
    pub prefix: String,
    pub data: TodoRest<Cfg, Ctl>,
    pub routes: Vec<Operation>,
}

/// The prefix of every path of the service.
pub open spec fn scope_prefix() -> Seq<char> {
    "/todo"@
}

/// The operations of the service, in the order in which they are routed.
pub open spec fn route_table() -> Seq<Operation> {
    seq![Operation::GetInfo, Operation::SendMail, Operation::AddTodo, Operation::CompleteTodo]
}

impl Operation {
    /// The method that the operation is bound to.
    pub open spec fn spec_method(self) -> Method {
        match self {
            Operation::GetInfo => Method::Get,
            Operation::SendMail => Method::Get,
            Operation::AddTodo => Method::Post,
            Operation::CompleteTodo => Method::Post,
        }
    }

    /// The path of the operation below the prefix.
    pub open spec fn spec_path(self) -> Seq<char> {
        match self {
            Operation::GetInfo => "/info"@,
            Operation::SendMail => "/send"@,
            Operation::AddTodo => "/add"@,
            Operation::CompleteTodo => "/complete"@,
        }
    }

    /// The method that the operation is bound to.
    pub fn method(&self) -> (method: Method)
        ensures
            method == self.spec_method(),
    {
        match self {
            Operation::GetInfo => Method::Get,
            Operation::SendMail => Method::Get,
            Operation::AddTodo => Method::Post,
            Operation::CompleteTodo => Method::Post,
        }
    }

    /// The path of the operation below the prefix.
    pub fn path(&self) -> (path: &'static str)
        ensures
            path@ == self.spec_path(),
    {
        match self {
            Operation::GetInfo => "/info",
            Operation::SendMail => "/send",
            Operation::AddTodo => "/add",
            Operation::CompleteTodo => "/complete",
        }
    }
}

/// Whether a request with this method and this whole path is for the
/// operation, routed under `prefix`.
pub open spec fn bound_to(
    prefix: Seq<char>,
    operation: Operation,
    method: Method,
    path: Seq<char>,
) -> bool {
    operation.spec_method() == method && path == prefix + operation.spec_path()
}

/// The first operation of `routes` that the method and the path are bound
/// to, if there is one.
pub open spec fn resolved(
    prefix: Seq<char>,
    routes: Seq<Operation>,
    method: Method,
    path: Seq<char>,
) -> Option<Operation>
    decreases routes.len(),
{
    if routes.len() == 0 {
        None
    } else if bound_to(prefix, routes[0], method, path) {
        Some(routes[0])
    } else {
        resolved(prefix, routes.skip(1), method, path)
    }
}

/// The routes of the service, one row for each operation.
pub open spec fn route_of(method: Method, path: Seq<char>) -> Option<Operation> {
    if method == Method::Get && path == "/todo/info"@ {
        Some(Operation::GetInfo)
    } else if method == Method::Get && path == "/todo/send"@ {
        Some(Operation::SendMail)
    } else if method == Method::Post && path == "/todo/add"@ {
        Some(Operation::AddTodo)
    } else if method == Method::Post && path == "/todo/complete"@ {
        Some(Operation::CompleteTodo)
    } else {
        None
    }
}

/// Calls `Arc::clone`: the new handle shares the value of the first.
#[verifier::external_body]
fn share<T>(handle: &Arc<T>) -> (shared: Arc<T>)
    ensures
        shared == *handle,
{
    Arc::clone(handle)
}

impl<Cfg, Ctl> Clone for TodoRest<Cfg, Ctl> {
    /// A second pair of handles to the same configuration and controller.
    fn clone(&self) -> (copy: Self)
        ensures
            copy == *self,
    {
        TodoRest { cnfg: share(&self.cnfg), todo_cnr: share(&self.todo_cnr) }
    }
}

/// Describes the scope of the service: the prefix `/todo`, handles that
/// share the given configuration and controller, and the four operations.
pub fn init<Cfg, Ctl>(cnfg: &Arc<Cfg>, todo_cnr: &Arc<Ctl>) -> (scope: TodoScope<Cfg, Ctl>)
    ensures
        scope.prefix@ == scope_prefix(),
        scope.data.cnfg == *cnfg,
        scope.data.todo_cnr == *todo_cnr,
        scope.routes@ == route_table(),
{
    let todo = TodoRest { cnfg: share(cnfg), todo_cnr: share(todo_cnr) };
    let mut routes: Vec<Operation> = Vec::new();
    routes.push(Operation::GetInfo);
    routes.push(Operation::SendMail);
    routes.push(Operation::AddTodo);
    routes.push(Operation::CompleteTodo);
    TodoScope { prefix: String::from_str("/todo"), data: todo, routes }
}

impl<Cfg, Ctl> TodoScope<Cfg, Ctl> {
    /// Finds the operation that a request is for, by its method and its
    /// whole path. The path must match to the letter.
    pub fn resolve(&self, method: Method, path: &str) -> (operation: Option<Operation>)
        ensures
            operation == resolved(self.prefix@, self.routes@, method, path@),
            self.prefix@ == scope_prefix() && self.routes@ == route_table() ==> operation
                == route_of(method, path@),
    {
        proof {
            lemma_route_table(method, path@);
        }
        let wanted = path.to_owned();
        let mut i: usize = 0;
        assert(self.routes@.skip(0) == self.routes@);
        while i < self.routes.len()
            invariant
                i <= self.routes@.len(),
                wanted@ == path@,
                resolved(scope_prefix(), route_table(), method, path@) == route_of(method, path@),
                resolved(self.prefix@, self.routes@, method, path@) == resolved(
                    self.prefix@,
                    self.routes@.skip(i as int),
                    method,
                    path@,
                ),
            decreases self.routes@.len() - i,
        {
            let operation = self.routes[i];
            let mut whole = self.prefix.clone();
            whole.append(operation.path());
            assert(self.routes@.skip(i as int)[0] == operation);
            assert(self.routes@.skip(i as int).skip(1) == self.routes@.skip(i as int + 1));
            if operation.method() == method && whole == wanted {
                return Some(operation);
            }
            i += 1;
        }
        None
    }
}

/// Under the prefix `/todo`, the table of the four operations routes a
/// request as the rows of `route_of` say, and routes nothing else.
pub proof fn lemma_route_table(method: Method, path: Seq<char>)
    ensures
        resolved(scope_prefix(), route_table(), method, path) == route_of(method, path),
{
    reveal_strlit("/todo");
    reveal_strlit("/info");
    reveal_strlit("/send");
    reveal_strlit("/add");
    reveal_strlit("/complete");
    reveal_strlit("/todo/info");
    reveal_strlit("/todo/send");
    reveal_strlit("/todo/add");
    reveal_strlit("/todo/complete");
    assert(scope_prefix() + Operation::GetInfo.spec_path() =~= "/todo/info"@);
    assert(scope_prefix() + Operation::SendMail.spec_path() =~= "/todo/send"@);
    assert(scope_prefix() + Operation::AddTodo.spec_path() =~= "/todo/add"@);
    assert(scope_prefix() + Operation::CompleteTodo.spec_path() =~= "/todo/complete"@);
    reveal_with_fuel(resolved, 5);
}

} // verus!
