//! The description of a model's topology, and the static checks on it.
//!
//! A component is described by a list of meta arguments: its identifier, its
//! input and output ports, and either the type of its state, which makes it
//! atomic, or its components and the couplings between them, which make it
//! coupled. Whoever turns such a description into a model reads it with the
//! functions of this module, which tell what it means and what is wrong
//! with it.

use vstd::prelude::*;
use vstd::string::StringExecFns;

verus! {

/// What is wrong with a description.
#[derive(Clone, Copy, Debug, PartialEq, Eq, Structural)]
pub enum TopologyError {
    /// A meta argument is given twice.
    DuplicateArgument,
    /// A meta argument has a name that means nothing.
    UnknownArgument,
    /// `state` is given for a component that has `components`, or the other
    /// way round.
    StateWithComponents,
    /// `state` is given for a component that has `couplings`, or the other
    /// way round.
    StateWithCouplings,
    /// Neither `state` nor `components` is given.
    TypeNotSpecified,
    /// `ident` is not given.
    MissingIdent,
    /// The port at `index` has the name of an earlier one.
    DuplicatePort { index: usize },
    /// The component at `index` has the name of an earlier one.
    DuplicateComponent { index: usize },
    /// The coupling at `index` is the same as an earlier one.
    DuplicateCoupling { index: usize },
    /// The token at `at` is not what a list of couplings has there.
    Syntax { at: usize },
    /// The coupling at `index` names a component that the node does not have.
    UnknownComponent { index: usize },
    /// The coupling at `index` names a port that the node does not have.
    UnknownPort { index: usize },
    /// The coupling at `index` names no component on either side.
    NoComponent { index: usize },
}

/// The name at `j` is the name at an earlier place.
pub open spec fn spec_repeats(names: Seq<Seq<char>>, j: int) -> bool {
    exists|i: int| 0 <= i < j && #[trigger] names[i] == names[j]
}

/// The names of `names`, as sequences of characters.
pub open spec fn spec_names(names: Seq<String>) -> Seq<Seq<char>> {
    names.map_values(|name: String| name@)
}

/// Whether `name` is among `names`.
pub fn has_name(names: &Vec<String>, name: &String) -> (found: bool)
    ensures
        found == spec_names(names@).contains(name@),
{
    let mut i: usize = 0;
    while i < names.len()
        invariant
            i <= names.len(),
            forall|k: int| 0 <= k < i ==> spec_names(names@)[k] != name@,
        decreases names.len() - i,
    {
        if names[i] == *name {
            assert(spec_names(names@)[i as int] == name@);
            return true;
        }
        i = i + 1;
    }
    false
}

/// The first place in `names` that holds the name of an earlier place, if
/// there is one.
pub fn first_repeat(names: &Vec<String>) -> (first: Option<usize>)
    ensures
        first matches Some(j) ==> j < names.len() && spec_repeats(spec_names(names@), j as int)
            && forall|k: int| 0 <= k < j ==> !spec_repeats(spec_names(names@), k),
        first is None ==> forall|k: int|
            0 <= k < names.len() ==> !spec_repeats(spec_names(names@), k),
{
    let ghost all = spec_names(names@);
    let mut j: usize = 0;
    while j < names.len()
        invariant
            j <= names.len(),
            all == spec_names(names@),
            forall|k: int| 0 <= k < j ==> !spec_repeats(all, k),
        decreases names.len() - j,
    {
        let mut i: usize = 0;
        while i < j
            invariant
                i <= j < names.len(),
                all == spec_names(names@),
                forall|k: int| 0 <= k < j ==> !spec_repeats(all, k),
                forall|k: int| 0 <= k < i ==> all[k] != all[j as int],
            decreases j - i,
        {
            if names[i] == names[j] {
                assert(all[i as int] == all[j as int]);
                return Some(j);
            }
            i = i + 1;
        }
        j = j + 1;
    }
    None
}

/// Checks that no two ports of a bag have the same name.
pub fn check_ports(names: &Vec<String>) -> (r: Result<(), TopologyError>)
    ensures
        r matches Err(e) ==> e matches TopologyError::DuplicatePort { index } && index
            < names.len() && spec_repeats(spec_names(names@), index as int) && forall|k: int|
            0 <= k < index ==> !spec_repeats(spec_names(names@), k),
        r is Ok ==> forall|k: int| 0 <= k < names.len() ==> !spec_repeats(spec_names(names@), k),
{
    match first_repeat(names) {
        Some(index) => Err(TopologyError::DuplicatePort { index }),
        None => Ok(()),
    }
}

/// Checks that no two components of a node have the same name.
pub fn check_components(names: &Vec<String>) -> (r: Result<(), TopologyError>)
    ensures
        r matches Err(e) ==> e matches TopologyError::DuplicateComponent { index } && index
            < names.len() && spec_repeats(spec_names(names@), index as int) && forall|k: int|
            0 <= k < index ==> !spec_repeats(spec_names(names@), k),
        r is Ok ==> forall|k: int| 0 <= k < names.len() ==> !spec_repeats(spec_names(names@), k),
{
    match first_repeat(names) {
        Some(index) => Err(TopologyError::DuplicateComponent { index }),
        None => Ok(()),
    }
}

/// The capacity of a port: the one that its declaration gives, and 1 where
/// it gives none.
pub fn port_capacity(given: Option<usize>) -> (capacity: usize)
    ensures
        capacity == (match given {
            Some(n) => n,
            None => 1,
        }),
{
    match given {
        Some(n) => n,
        None => 1,
    }
}

/// The meta arguments of a component.
#[derive(Clone, Copy, Debug, PartialEq, Eq, Structural)]
pub enum MetaKey {
    /// `ident`: the identifier of the component.
    Ident,
    /// `input`: its input ports.
    Input,
    /// `output`: its output ports.
    Output,
    /// `state`: the type of its state.
    State,
    /// `components`: its components.
    Components,
    /// `couplings`: the couplings between the ports of its components and
    /// its own.
    Couplings,
}

/// The meta argument that goes by `name`.
pub open spec fn spec_meta_key(name: Seq<char>) -> Option<MetaKey> {
    if name == "ident"@ {
        Some(MetaKey::Ident)
    } else if name == "input"@ {
        Some(MetaKey::Input)
    } else if name == "output"@ {
        Some(MetaKey::Output)
    } else if name == "state"@ {
        Some(MetaKey::State)
    } else if name == "components"@ {
        Some(MetaKey::Components)
    } else if name == "couplings"@ {
        Some(MetaKey::Couplings)
    } else {
        None
    }
}

/// The meta argument that goes by `name`, if there is one.
pub fn meta_key(name: &str) -> (key: Option<MetaKey>)
    ensures
        key == spec_meta_key(name@),
{
    let name = String::from_str(name);
    if name == String::from_str("ident") {
        Some(MetaKey::Ident)
    } else if name == String::from_str("input") {
        Some(MetaKey::Input)
    } else if name == String::from_str("output") {
        Some(MetaKey::Output)
    } else if name == String::from_str("state") {
        Some(MetaKey::State)
    } else if name == String::from_str("components") {
        Some(MetaKey::Components)
    } else if name == String::from_str("couplings") {
        Some(MetaKey::Couplings)
    } else {
        None
    }
}

/// The two kinds of component.
#[derive(Clone, Copy, Debug, PartialEq, Eq, Structural)]
pub enum ComponentKind {
    /// A component with a state.
    Atomic,
    /// A component made of components.
    Coupled,
}

/// The meta arguments that a description has given so far.
#[derive(Clone, Copy, Debug, PartialEq, Eq, Structural)]
pub struct MetaArguments {
    pub ident: bool,
    pub input: bool,
    pub output: bool,
    pub state: bool,
    pub components: bool,
    pub couplings: bool,
}

impl MetaArguments {
    /// No meta argument.
    pub fn new() -> (given: Self)
        ensures
            given == (MetaArguments {
                ident: false,
                input: false,
                output: false,
                state: false,
                components: false,
                couplings: false,
            }),
    {
        MetaArguments {
            ident: false,
            input: false,
            output: false,
            state: false,
            components: false,
            couplings: false,
        }
    }

    /// Whether `key` has been given.
    pub open spec fn spec_has(self, key: MetaKey) -> bool {
        match key {
            MetaKey::Ident => self.ident,
            MetaKey::Input => self.input,
            MetaKey::Output => self.output,
            MetaKey::State => self.state,
            MetaKey::Components => self.components,
            MetaKey::Couplings => self.couplings,
        }
    }

    /// Whether `key` has been given.
    #[verifier::when_used_as_spec(spec_has)]
    pub fn has(self, key: MetaKey) -> (given: bool)
        ensures
            given == self.spec_has(key),
    {
        match key {
            MetaKey::Ident => self.ident,
            MetaKey::Input => self.input,
            MetaKey::Output => self.output,
            MetaKey::State => self.state,
            MetaKey::Components => self.components,
            MetaKey::Couplings => self.couplings,
        }
    }

    /// The same meta arguments, and `key`.
    pub open spec fn spec_with(self, key: MetaKey) -> Self {
        match key {
            MetaKey::Ident => MetaArguments { ident: true, ..self },
            MetaKey::Input => MetaArguments { input: true, ..self },
            MetaKey::Output => MetaArguments { output: true, ..self },
            MetaKey::State => MetaArguments { state: true, ..self },
            MetaKey::Components => MetaArguments { components: true, ..self },
            MetaKey::Couplings => MetaArguments { couplings: true, ..self },
        }
    }

    /// What is wrong with giving the meta argument `name` after those of
    /// `self`, if anything: it means nothing, it has been given already, or
    /// it is `state` where `components` or `couplings` have been given, or
    /// the other way round.
    pub open spec fn spec_refuses(self, name: Seq<char>) -> Option<TopologyError> {
        match spec_meta_key(name) {
            None => Some(TopologyError::UnknownArgument),
            Some(key) => if self.has(key) {
                Some(TopologyError::DuplicateArgument)
            } else if key == MetaKey::State && self.components {
                Some(TopologyError::StateWithComponents)
            } else if key == MetaKey::State && self.couplings {
                Some(TopologyError::StateWithCouplings)
            } else if key == MetaKey::Components && self.state {
                Some(TopologyError::StateWithComponents)
            } else if key == MetaKey::Couplings && self.state {
                Some(TopologyError::StateWithCouplings)
            } else {
                None
            },
        }
    }

    /// Takes in the meta argument that goes by `name`, and tells which it
    /// is. An argument that cannot be given after those that have been is
    /// refused, and `self` is left as it is.
    pub fn accept(&mut self, name: &str) -> (r: Result<MetaKey, TopologyError>)
        ensures
            match old(self).spec_refuses(name@) {
                Some(e) => r == Err::<MetaKey, TopologyError>(e) && *final(self) == *old(self),
                None => r == Ok::<MetaKey, TopologyError>(spec_meta_key(name@)->0)
                    && *final(self) == old(self).spec_with(spec_meta_key(name@)->0),
            },
    {
        match meta_key(name) {
            None => Err(TopologyError::UnknownArgument),
            Some(key) => {
                if self.has(key) {
                    return Err(TopologyError::DuplicateArgument);
                }
                match key {
                    MetaKey::Ident => {
                        self.ident = true;
                    },
                    MetaKey::Input => {
                        self.input = true;
                    },
                    MetaKey::Output => {
                        self.output = true;
                    },
                    MetaKey::State => {
                        if self.components {
                            return Err(TopologyError::StateWithComponents);
                        }
                        if self.couplings {
                            return Err(TopologyError::StateWithCouplings);
                        }
                        self.state = true;
                    },
                    MetaKey::Components => {
                        if self.state {
                            return Err(TopologyError::StateWithComponents);
                        }
                        self.components = true;
                    },
                    MetaKey::Couplings => {
                        if self.state {
                            return Err(TopologyError::StateWithCouplings);
                        }
                        self.couplings = true;
                    },
                }
                Ok(key)
            },
        }
    }

    /// The kind of component that the meta arguments describe: atomic with
    /// `state`, coupled with `components`. A description without either, or
    /// without `ident`, is refused.
    pub open spec fn spec_kind(self) -> Result<ComponentKind, TopologyError> {
        if !self.state && !self.components {
            Err(TopologyError::TypeNotSpecified)
        } else if !self.ident {
            Err(TopologyError::MissingIdent)
        } else if self.state {
            Ok(ComponentKind::Atomic)
        } else {
            Ok(ComponentKind::Coupled)
        }
    }

    /// The kind of component that the meta arguments describe.
    #[verifier::when_used_as_spec(spec_kind)]
    pub fn kind(self) -> (r: Result<ComponentKind, TopologyError>)
        ensures
            r == self.spec_kind(),
    {
        if !self.state && !self.components {
            Err(TopologyError::TypeNotSpecified)
        } else if !self.ident {
            Err(TopologyError::MissingIdent)
        } else if self.state {
            Ok(ComponentKind::Atomic)
        } else {
            Ok(ComponentKind::Coupled)
        }
    }
}

/// Meta arguments that have been accepted one after the other never hold
/// `state` together with `components` or `couplings`.
pub proof fn law_state_excludes_components(given: MetaArguments, name: Seq<char>)
    requires
        !(given.state && (given.components || given.couplings)),
        given.spec_refuses(name) is None,
    ensures
        ({
            let next = given.spec_with(spec_meta_key(name)->0);
            !(next.state && (next.components || next.couplings))
        }),
{
}

/// A coupling: messages go from the port `port_from` to the port `port_to`.
/// Each port is that of the component that is named with it, and of the
/// node itself where none is named.
#[derive(Debug)]
pub struct Coupling {
    pub component_from: Option<String>,
    pub port_from: String,
    pub component_to: Option<String>,
    pub port_to: String,
}

/// A coupling, with its names as sequences of characters.
pub struct CouplingView {
    pub component_from: Option<Seq<char>>,
    pub port_from: Seq<char>,
    pub component_to: Option<Seq<char>>,
    pub port_to: Seq<char>,
}

/// The three kinds of coupling.
#[derive(Clone, Copy, Debug, PartialEq, Eq, Structural)]
pub enum CouplingKind {
    /// External input coupling: from an input port of the node to an input
    /// port of a component.
    EIC,
    /// Internal coupling: from an output port of a component to an input
    /// port of a component.
    IC,
    /// External output coupling: from an output port of a component to an
    /// output port of the node.
    EOC,
}

impl CouplingView {
    /// Whether the coupling leads to an output port of the node.
    pub open spec fn is_eoc(self) -> bool {
        self.component_to is None
    }

    /// The kind of the coupling, if it names a component on either side.
    pub open spec fn kind(self) -> Option<CouplingKind> {
        match (self.component_from, self.component_to) {
            (None, Some(_)) => Some(CouplingKind::EIC),
            (Some(_), Some(_)) => Some(CouplingKind::IC),
            (Some(_), None) => Some(CouplingKind::EOC),
            (None, None) => None,
        }
    }
}

/// The name `name` as a sequence of characters, if there is one.
pub open spec fn spec_name(name: Option<String>) -> Option<Seq<char>> {
    match name {
        Some(name) => Some(name@),
        None => None,
    }
}

fn same_name(a: &Option<String>, b: &Option<String>) -> (same: bool)
    ensures
        same == (spec_name(*a) == spec_name(*b)),
{
    match (a, b) {
        (Some(a), Some(b)) => *a == *b,
        (None, None) => true,
        _ => false,
    }
}

fn copy_name(name: &Option<String>) -> (copy: Option<String>)
    ensures
        copy == *name,
{
    match name {
        Some(name) => Some(name.clone()),
        None => None,
    }
}

impl View for Coupling {
    type V = CouplingView;

    open spec fn view(&self) -> CouplingView {
        CouplingView {
            component_from: spec_name(self.component_from),
            port_from: self.port_from@,
            component_to: spec_name(self.component_to),
            port_to: self.port_to@,
        }
    }
}

impl Coupling {
    /// Whether the coupling leads to an output port of the node.
    pub fn is_eoc(&self) -> (b: bool)
        ensures
            b == self@.is_eoc(),
    {
        self.component_to.is_none()
    }

    /// The kind of the coupling, if it names a component on either side.
    pub fn kind(&self) -> (kind: Option<CouplingKind>)
        ensures
            kind == self@.kind(),
    {
        match (&self.component_from, &self.component_to) {
            (None, Some(_)) => Some(CouplingKind::EIC),
            (Some(_), Some(_)) => Some(CouplingKind::IC),
            (Some(_), None) => Some(CouplingKind::EOC),
            (None, None) => None,
        }
    }

    /// Whether two couplings name the same ports of the same components.
    pub fn same(&self, other: &Coupling) -> (same: bool)
        ensures
            same == (self@ == other@),
    {
        same_name(&self.component_from, &other.component_from) && self.port_from
            == other.port_from && same_name(&self.component_to, &other.component_to)
            && self.port_to == other.port_to
    }

    /// A copy of the coupling.
    pub fn duplicate(&self) -> (copy: Coupling)
        ensures
            copy == *self,
    {
        Coupling {
            component_from: copy_name(&self.component_from),
            port_from: self.port_from.clone(),
            component_to: copy_name(&self.component_to),
            port_to: self.port_to.clone(),
        }
    }
}

/// The couplings of `couplings`, with their names as sequences of characters.
pub open spec fn spec_couplings(couplings: Seq<Coupling>) -> Seq<CouplingView> {
    couplings.map_values(|coupling: Coupling| coupling@)
}

/// Whether `coupling` is among `couplings`.
pub fn has_coupling(couplings: &Vec<Coupling>, coupling: &Coupling) -> (found: bool)
    ensures
        found == spec_couplings(couplings@).contains(coupling@),
{
    let mut i: usize = 0;
    while i < couplings.len()
        invariant
            i <= couplings.len(),
            forall|k: int| 0 <= k < i ==> spec_couplings(couplings@)[k] != coupling@,
        decreases couplings.len() - i,
    {
        if couplings[i].same(coupling) {
            assert(spec_couplings(couplings@)[i as int] == coupling@);
            return true;
        }
        i = i + 1;
    }
    false
}

/// What a list of couplings is made of.
#[derive(Debug)]
pub enum Token {
    /// An identifier.
    Ident(String),
    /// `.`, between the name of a component and the name of its port.
    Dot,
    /// `->`, between the two ports of a coupling.
    Arrow,
    /// `,`, between two couplings.
    Comma,
    /// Anything else.
    Other,
}

/// The identifier at `at`, if there is one.
pub open spec fn spec_ident_at(tokens: Seq<Token>, at: int) -> Option<Seq<char>> {
    if 0 <= at < tokens.len() && tokens[at] is Ident {
        Some(tokens[at]->Ident_0@)
    } else {
        None
    }
}

/// Whether the token at `at` is `.`.
pub open spec fn spec_dot_at(tokens: Seq<Token>, at: int) -> bool {
    0 <= at < tokens.len() && tokens[at] is Dot
}

/// Whether the token at `at` is `->`.
pub open spec fn spec_arrow_at(tokens: Seq<Token>, at: int) -> bool {
    0 <= at < tokens.len() && tokens[at] is Arrow
}

/// The coupling that the tokens from `at` on begin with, and the number of
/// tokens that it is made of. A coupling is written in one of three forms:
/// - `port -> component.port`, an external input coupling;
/// - `component.port -> component.port`, an internal coupling;
/// - `component.port -> port`, an external output coupling.
/// Where the tokens begin with none of these, the first token that does not
/// fit is told.
pub open spec fn spec_coupling_at(tokens: Seq<Token>, at: int) -> Result<
    (CouplingView, nat),
    TopologyError,
> {
    if spec_ident_at(tokens, at) is None {
        Err(TopologyError::Syntax { at: at as usize })
    } else if spec_dot_at(tokens, at + 1) {
        if spec_ident_at(tokens, at + 2) is None {
            Err(TopologyError::Syntax { at: (at + 2) as usize })
        } else if !spec_arrow_at(tokens, at + 3) {
            Err(TopologyError::Syntax { at: (at + 3) as usize })
        } else if spec_ident_at(tokens, at + 4) is None {
            Err(TopologyError::Syntax { at: (at + 4) as usize })
        } else if spec_dot_at(tokens, at + 5) {
            if spec_ident_at(tokens, at + 6) is None {
                Err(TopologyError::Syntax { at: (at + 6) as usize })
            } else {
                Ok(
                    (
                        CouplingView {
                            component_from: spec_ident_at(tokens, at),
                            port_from: spec_ident_at(tokens, at + 2)->0,
                            component_to: spec_ident_at(tokens, at + 4),
                            port_to: spec_ident_at(tokens, at + 6)->0,
                        },
                        7,
                    ),
                )
            }
        } else {
            Ok(
                (
                    CouplingView {
                        component_from: spec_ident_at(tokens, at),
                        port_from: spec_ident_at(tokens, at + 2)->0,
                        component_to: None,
                        port_to: spec_ident_at(tokens, at + 4)->0,
                    },
                    5,
                ),
            )
        }
    } else if !spec_arrow_at(tokens, at + 1) {
        Err(TopologyError::Syntax { at: (at + 1) as usize })
    } else if spec_ident_at(tokens, at + 2) is None {
        Err(TopologyError::Syntax { at: (at + 2) as usize })
    } else if !spec_dot_at(tokens, at + 3) {
        Err(TopologyError::Syntax { at: (at + 3) as usize })
    } else if spec_ident_at(tokens, at + 4) is None {
        Err(TopologyError::Syntax { at: (at + 4) as usize })
    } else {
        Ok(
            (
                CouplingView {
                    component_from: None,
                    port_from: spec_ident_at(tokens, at)->0,
                    component_to: spec_ident_at(tokens, at + 2),
                    port_to: spec_ident_at(tokens, at + 4)->0,
                },
                5,
            ),
        )
    }
}

fn ident_at(tokens: &Vec<Token>, at: usize) -> (name: Option<String>)
    ensures
        spec_name(name) == spec_ident_at(tokens@, at as int),
{
    if at < tokens.len() {
        match &tokens[at] {
            Token::Ident(name) => Some(name.clone()),
            _ => None,
        }
    } else {
        None
    }
}

fn dot_at(tokens: &Vec<Token>, at: usize) -> (b: bool)
    ensures
        b == spec_dot_at(tokens@, at as int),
{
    if at < tokens.len() {
        match &tokens[at] {
            Token::Dot => true,
            _ => false,
        }
    } else {
        false
    }
}

fn arrow_at(tokens: &Vec<Token>, at: usize) -> (b: bool)
    ensures
        b == spec_arrow_at(tokens@, at as int),
{
    if at < tokens.len() {
        match &tokens[at] {
            Token::Arrow => true,
            _ => false,
        }
    } else {
        false
    }
}

/// Reads the coupling that the tokens from `at` on begin with, and tells
/// where the tokens go on behind it.
pub fn parse_coupling(tokens: &Vec<Token>, at: usize) -> (r: Result<(Coupling, usize), TopologyError>)
    ensures
        match spec_coupling_at(tokens@, at as int) {
            Ok((coupling, length)) => r matches Ok((read, next)) && read@ == coupling && next
                == at + length && next <= tokens.len(),
            Err(e) => r == Err::<(Coupling, usize), TopologyError>(e),
        },
{
    let first = match ident_at(tokens, at) {
        Some(name) => name,
        None => {
            return Err(TopologyError::Syntax { at });
        },
    };
    assert(at < tokens.len());
    if dot_at(tokens, at + 1) {
        let port_from = match ident_at(tokens, at + 2) {
            Some(name) => name,
            None => {
                return Err(TopologyError::Syntax { at: at + 2 });
            },
        };
        if !arrow_at(tokens, at + 3) {
            return Err(TopologyError::Syntax { at: at + 3 });
        }
        let target = match ident_at(tokens, at + 4) {
            Some(name) => name,
            None => {
                return Err(TopologyError::Syntax { at: at + 4 });
            },
        };
        if dot_at(tokens, at + 5) {
            let port_to = match ident_at(tokens, at + 6) {
                Some(name) => name,
                None => {
                    return Err(TopologyError::Syntax { at: at + 6 });
                },
            };
            Ok(
                (
                    Coupling {
                        component_from: Some(first),
                        port_from,
                        component_to: Some(target),
                        port_to,
                    },
                    at + 7,
                ),
            )
        } else {
            Ok(
                (
                    Coupling {
                        component_from: Some(first),
                        port_from,
                        component_to: None,
                        port_to: target,
                    },
                    at + 5,
                ),
            )
        }
    } else {
        if !arrow_at(tokens, at + 1) {
            return Err(TopologyError::Syntax { at: at + 1 });
        }
        let component_to = match ident_at(tokens, at + 2) {
            Some(name) => name,
            None => {
                return Err(TopologyError::Syntax { at: at + 2 });
            },
        };
        if !dot_at(tokens, at + 3) {
            return Err(TopologyError::Syntax { at: at + 3 });
        }
        let port_to = match ident_at(tokens, at + 4) {
            Some(name) => name,
            None => {
                return Err(TopologyError::Syntax { at: at + 4 });
            },
        };
        Ok(
            (
                Coupling {
                    component_from: None,
                    port_from: first,
                    component_to: Some(component_to),
                    port_to,
                },
                at + 5,
            ),
        )
    }
}

/// The couplings that the tokens from `at` on list behind the couplings
/// `found`: couplings with a comma between each two, and after the last one
/// or not. A coupling that is listed twice is refused, and so is anything
/// but a comma behind a coupling.
pub open spec fn spec_couplings_from(tokens: Seq<Token>, at: int, found: Seq<CouplingView>) -> Result<
    Seq<CouplingView>,
    TopologyError,
>
    decreases tokens.len() - at,
{
    if at >= tokens.len() {
        Ok(found)
    } else {
        match spec_coupling_at(tokens, at) {
            Err(e) => Err(e),
            Ok((coupling, length)) => if found.contains(coupling) {
                Err(TopologyError::DuplicateCoupling { index: found.len() as usize })
            } else if at + length >= tokens.len() {
                Ok(found.push(coupling))
            } else if tokens[at + length] is Comma {
                spec_couplings_from(tokens, at + length + 1, found.push(coupling))
            } else {
                Err(TopologyError::Syntax { at: (at + length) as usize })
            },
        }
    }
}

/// The couplings that `tokens` list.
pub open spec fn spec_parse_couplings(tokens: Seq<Token>) -> Result<
    Seq<CouplingView>,
    TopologyError,
> {
    spec_couplings_from(tokens, 0, Seq::empty())
}

/// Reads a list of couplings.
pub fn parse_couplings(tokens: &Vec<Token>) -> (r: Result<Vec<Coupling>, TopologyError>)
    ensures
        match spec_parse_couplings(tokens@) {
            Ok(couplings) => r matches Ok(read) && spec_couplings(read@) == couplings,
            Err(e) => r == Err::<Vec<Coupling>, TopologyError>(e),
        },
{
    let mut found: Vec<Coupling> = Vec::new();
    let mut at: usize = 0;
    assert(spec_couplings(found@) =~= Seq::<CouplingView>::empty());
    while at < tokens.len()
        invariant
            at <= tokens.len(),
            spec_couplings_from(tokens@, at as int, spec_couplings(found@)) == spec_parse_couplings(
                tokens@,
            ),
        decreases tokens.len() - at,
    {
        match parse_coupling(tokens, at) {
            Err(e) => {
                return Err(e);
            },
            Ok((coupling, next)) => {
                if has_coupling(&found, &coupling) {
                    return Err(TopologyError::DuplicateCoupling { index: found.len() });
                }
                let ghost before = spec_couplings(found@);
                let ghost read = coupling@;
                found.push(coupling);
                assert(spec_couplings(found@) =~= before.push(read));
                if next >= tokens.len() {
                    return Ok(found);
                }
                match &tokens[next] {
                    Token::Comma => {
                        at = next + 1;
                    },
                    _ => {
                        return Err(TopologyError::Syntax { at: next });
                    },
                }
            },
        }
    }
    Ok(found)
}

/// Sorts couplings by the time at which they carry messages: the external
/// output couplings, which follow the output functions, and the others,
/// which come before the transitions. Each part keeps the order of the list.
pub fn split_couplings(couplings: &Vec<Coupling>) -> (parts: (Vec<Coupling>, Vec<Coupling>))
    ensures
        parts.0@ == couplings@.filter(|coupling: Coupling| coupling@.is_eoc()),
        parts.1@ == couplings@.filter(|coupling: Coupling| !coupling@.is_eoc()),
{
    let ghost is_eoc = |coupling: Coupling| coupling@.is_eoc();
    let ghost is_xic = |coupling: Coupling| !coupling@.is_eoc();
    let mut eoc: Vec<Coupling> = Vec::new();
    let mut xic: Vec<Coupling> = Vec::new();
    let mut i: usize = 0;
    proof {
        reveal(Seq::filter);
    }
    while i < couplings.len()
        invariant
            i <= couplings.len(),
            is_eoc == |coupling: Coupling| coupling@.is_eoc(),
            is_xic == |coupling: Coupling| !coupling@.is_eoc(),
            eoc@ == couplings@.take(i as int).filter(is_eoc),
            xic@ == couplings@.take(i as int).filter(is_xic),
        decreases couplings.len() - i,
    {
        proof {
            reveal(Seq::filter);
            assert(couplings@.take(i + 1).drop_last() =~= couplings@.take(i as int));
        }
        let copy = couplings[i].duplicate();
        if copy.is_eoc() {
            eoc.push(copy);
        } else {
            xic.push(copy);
        }
        i = i + 1;
    }
    assert(couplings@.take(i as int) =~= couplings@);
    (eoc, xic)
}

/// What is wrong with the ends of the coupling `coupling`, the one at
/// `index`, in a node with the components `components` and the input and
/// output ports `input` and `output`, if anything: it names no component,
/// a component that the node does not have, or a port of the node that the
/// node does not have. The source is looked at before the destination.
pub open spec fn spec_wrong_end(
    coupling: CouplingView,
    index: usize,
    components: Seq<Seq<char>>,
    input: Seq<Seq<char>>,
    output: Seq<Seq<char>>,
) -> Option<TopologyError> {
    if coupling.kind() is None {
        Some(TopologyError::NoComponent { index })
    } else if coupling.component_from is Some && !components.contains(coupling.component_from->0) {
        Some(TopologyError::UnknownComponent { index })
    } else if coupling.component_from is None && !input.contains(coupling.port_from) {
        Some(TopologyError::UnknownPort { index })
    } else if coupling.component_to is Some && !components.contains(coupling.component_to->0) {
        Some(TopologyError::UnknownComponent { index })
    } else if coupling.component_to is None && !output.contains(coupling.port_to) {
        Some(TopologyError::UnknownPort { index })
    } else {
        None
    }
}

fn wrong_end(
    coupling: &Coupling,
    index: usize,
    components: &Vec<String>,
    input: &Vec<String>,
    output: &Vec<String>,
) -> (wrong: Option<TopologyError>)
    ensures
        wrong == spec_wrong_end(
            coupling@,
            index,
            spec_names(components@),
            spec_names(input@),
            spec_names(output@),
        ),
{
    if coupling.kind().is_none() {
        return Some(TopologyError::NoComponent { index });
    }
    match &coupling.component_from {
        Some(component) => {
            if !has_name(components, component) {
                return Some(TopologyError::UnknownComponent { index });
            }
        },
        None => {
            if !has_name(input, &coupling.port_from) {
                return Some(TopologyError::UnknownPort { index });
            }
        },
    }
    match &coupling.component_to {
        Some(component) => {
            if !has_name(components, component) {
                return Some(TopologyError::UnknownComponent { index });
            }
        },
        None => {
            if !has_name(output, &coupling.port_to) {
                return Some(TopologyError::UnknownPort { index });
            }
        },
    }
    None
}

/// Checks the ends of every coupling of a node with the components
/// `components` and the input and output ports `input` and `output`: each
/// must name a component of the node with a port, or a port of the node. The
/// first coupling with a wrong end is told, with what is wrong with it.
pub fn check_endpoints(
    couplings: &Vec<Coupling>,
    components: &Vec<String>,
    input: &Vec<String>,
    output: &Vec<String>,
) -> (r: Result<(), TopologyError>)
    ensures
        r is Ok ==> forall|k: int|
            0 <= k < couplings.len() ==> spec_wrong_end(
                #[trigger] couplings[k]@,
                k as usize,
                spec_names(components@),
                spec_names(input@),
                spec_names(output@),
            ) is None,
        r matches Err(e) ==> exists|index: int|
            {
                &&& 0 <= index < couplings.len()
                &&& Some(e) == spec_wrong_end(
                    #[trigger] couplings[index]@,
                    index as usize,
                    spec_names(components@),
                    spec_names(input@),
                    spec_names(output@),
                )
                &&& forall|k: int|
                    0 <= k < index ==> spec_wrong_end(
                        #[trigger] couplings[k]@,
                        k as usize,
                        spec_names(components@),
                        spec_names(input@),
                        spec_names(output@),
                    ) is None
            },
{
    let mut i: usize = 0;
    while i < couplings.len()
        invariant
            i <= couplings.len(),
            forall|k: int|
                0 <= k < i ==> spec_wrong_end(
                    #[trigger] couplings[k]@,
                    k as usize,
                    spec_names(components@),
                    spec_names(input@),
                    spec_names(output@),
                ) is None,
        decreases couplings.len() - i,
    {
        match wrong_end(&couplings[i], i, components, input, output) {
            Some(e) => {
                return Err(e);
            },
            None => {},
        }
        i = i + 1;
    }
    Ok(())
}

/// Every coupling that is read from tokens names a component on one side
/// at least: it is of one of the three kinds.
pub proof fn law_read_couplings_have_a_kind(tokens: Seq<Token>, at: int)
    requires
        spec_coupling_at(tokens, at) is Ok,
    ensures
        spec_coupling_at(tokens, at)->Ok_0.0.kind() is Some,
{
}

} // verus!
