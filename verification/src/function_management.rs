//! Function management service: a pool of remotely invocable functions,
//! each with named, encoded arguments, registered and looked up by their
//! numeric identifiers.

use vstd::prelude::*;
use std::collections::BTreeMap;

verus! {

broadcast use vstd::laws_cmp::group_laws_cmp;

/// One argument of an invocable function.
#[derive(Debug)]
pub struct Argument {
    argument_id: u32,
    argument_name: String,
    encoding: String,
}

impl Argument {
    /// The argument's identifier.
    pub closed spec fn id(&self) -> u32 {
        self.argument_id
    }

    /// The argument's name.
    pub closed spec fn name(&self) -> Seq<char> {
        self.argument_name@
    }

    /// The argument's value encoding descriptor.
    pub closed spec fn encoding(&self) -> Seq<char> {
        self.encoding@
    }

    /// An argument with the given identifier, name and encoding.
    pub fn new(argument_id: u32, argument_name: String, encoding: String) -> (r: Self)
        ensures
            r.id() == argument_id,
            r.name() == argument_name@,
            r.encoding() == encoding@,
    {
        Argument { argument_id, argument_name, encoding }
    }

    /// Encoded size of the argument's value in bytes; every supported
    /// encoding currently occupies eight bytes.
    pub fn get_encoded_size(&self) -> (r: usize)
        ensures
            r == 8,
    {
        8
    }
}

/// One invocable function with its argument table.
#[derive(Debug)]
pub struct Function {
    function_id: u32,
    function_name: String,
    arguments: BTreeMap<u32, Argument>,
}

/// The argument table a list of arguments builds up, in order; a repeated
/// identifier keeps the later argument.
pub open spec fn arguments_map(args: Seq<Argument>) -> Map<u32, Argument>
    decreases args.len(),
{
    if args.len() == 0 {
        Map::empty()
    } else {
        arguments_map(args.drop_last()).insert(args.last().id(), args.last())
    }
}

impl Function {
    /// The function's identifier.
    pub closed spec fn id(&self) -> u32 {
        self.function_id
    }

    /// The function's name.
    pub closed spec fn name(&self) -> Seq<char> {
        self.function_name@
    }

    /// The function's argument table, by argument identifier.
    pub closed spec fn arguments(&self) -> Map<u32, Argument> {
        self.arguments@
    }

    /// A function with the given identifier and name, its argument table
    /// filled from the listed arguments in order.
    pub fn new(function_id: u32, function_name: String, arguments: Option<Vec<Argument>>) -> (r:
        Self)
        ensures
            r.id() == function_id,
            r.name() == function_name@,
            r.arguments() == match arguments {
                Some(args) => arguments_map(args@),
                None => Map::<u32, Argument>::empty(),
            },
    {
        let mut function = Function { function_id, function_name, arguments: BTreeMap::new() };
        if let Some(args) = arguments {
            let ghost all = args@;
            let mut args = args;
            let count: usize = args.len();
            let mut i: usize = 0;
            proof {
                assert(all.len() == count as int);
                assert(arguments_map(all.take(0)) =~= Map::<u32, Argument>::empty());
            }
            while args.len() > 0
                invariant
                    function.function_id == function_id,
                    function.function_name@ == function_name@,
                    all.len() <= usize::MAX,
                    0 <= i <= all.len(),
                    args@ == all.skip(i as int),
                    function.arguments@ == arguments_map(all.take(i as int)),
                decreases args@.len(),
            {
                let arg = args.remove(0);
                proof {
                    assert(arg == all[i as int]);
                    assert(args@ =~= all.skip(i as int + 1));
                    assert(all.take(i as int + 1).drop_last() =~= all.take(i as int));
                    assert(all.take(i as int + 1).last() == all[i as int]);
                }
                function.add_argument(arg);
                i = i + 1;
            }
            proof {
                assert(all.take(all.len() as int) =~= all);
            }
        }
        function
    }

    /// Registers one argument in the table, replacing any argument already
    /// carrying its identifier.
    pub fn add_argument(&mut self, argument: Argument)
        ensures
            final(self).id() == old(self).id(),
            final(self).name() == old(self).name(),
            final(self).arguments() == old(self).arguments().insert(argument.id(), argument),
    {
        self.arguments.insert(argument.argument_id, argument);
    }

    /// Looks an argument up by its identifier.
    pub fn get_argument(&self, argument_id: u32) -> (r: Option<&Argument>)
        ensures
            match r {
                Some(a) => self.arguments().contains_key(argument_id) && *a
                    == self.arguments().index(argument_id),
                None => !self.arguments().contains_key(argument_id),
            },
    {
        self.arguments.get(&argument_id)
    }
}

/// The pool of invocable functions, by function identifier.
#[derive(Debug)]
pub struct FunctionManagementService {
    function_pool: BTreeMap<u32, Function>,
}

impl FunctionManagementService {
    /// The pool, by function identifier.
    pub closed spec fn pool(&self) -> Map<u32, Function> {
        self.function_pool@
    }

    /// An empty pool.
    pub fn new() -> (r: Self)
        ensures
            r.pool() == Map::<u32, Function>::empty(),
    {
        FunctionManagementService { function_pool: BTreeMap::new() }
    }

    /// Registers one function, replacing any function already carrying its
    /// identifier.
    pub fn add_function(&mut self, function: Function)
        ensures
            final(self).pool() == old(self).pool().insert(function.id(), function),
    {
        let id = function.function_id;
        self.function_pool.insert(id, function);
    }

    /// Looks a function up by its identifier.
    pub fn get_function(&self, function_id: u32) -> (r: Option<&Function>)
        ensures
            match r {
                Some(f) => self.pool().contains_key(function_id) && *f == self.pool()[function_id],
                None => !self.pool().contains_key(function_id),
            },
    {
        self.function_pool.get(&function_id)
    }
}

} // verus!
