//! Generating a TypeScript client for a contract: where the contract's
//! specification comes from, where the project goes, and which network it is
//! set up for.

use vstd::prelude::*;
use crate::commands::config::locator::ConfigLocator;
use crate::commands::config::network;
use crate::commands::config::network::{Network, NetworkView};
use crate::text::view_of;

verus! {

/// Why no project could be generated.
#[derive(Clone, PartialEq, Eq, Debug)]
pub enum Error {
    /// The output directory is a file. Carries its path.
    IsFile(String),
}

/// The mathematical value of an `Error`.
pub enum ErrorView {
    IsFile(Seq<char>),
}

impl View for Error {
    type V = ErrorView;

    open spec fn view(&self) -> ErrorView {
        match self {
            Error::IsFile(path) => ErrorView::IsFile(path@),
        }
    }
}

/// What is asked when bindings are generated.
#[derive(Clone, Debug)]
pub struct Cmd {
    /// Path to optional wasm binary.
    pub wasm: Option<String>,
    /// Where to place the generated project.
    pub output_dir: String,
    /// The name of the contract.
    pub contract_name: String,
    /// The id of the contract.
    pub contract_id: String,
    /// The network that the project is set up for.
    pub network: network::Args,
}

/// Where the specification of the contract is read from.
#[derive(Clone, PartialEq, Eq, Debug)]
pub enum SpecSource {
    /// From the wasm binary at this path.
    Wasm(String),
    /// From the network, by the id of the contract.
    Contract(String),
}

/// The mathematical value of a `SpecSource`.
pub enum SpecSourceView {
    Wasm(Seq<char>),
    Contract(Seq<char>),
}

impl View for SpecSource {
    type V = SpecSourceView;

    open spec fn view(&self) -> SpecSourceView {
        match self {
            SpecSource::Wasm(path) => SpecSourceView::Wasm(path@),
            SpecSource::Contract(id) => SpecSourceView::Contract(id@),
        }
    }
}

/// Where the project is placed.
#[derive(Clone, Copy, PartialEq, Eq, Structural, Debug)]
pub enum Placement {
    /// In the output directory itself, which is created.
    OutputDir,
    /// In a directory of the contract's name inside the output directory,
    /// which exists already.
    UnderContractName,
}

/// The project to generate.
#[derive(Clone, Debug)]
pub struct Project {
    /// Where the project is placed.
    pub placement: Placement,
    /// The network that the project is set up for.
    pub network: Network,
}

/// The mathematical value of a `Project`.
pub struct ProjectView {
    pub placement: Placement,
    pub network: NetworkView,
}

impl View for Project {
    type V = ProjectView;

    open spec fn view(&self) -> ProjectView {
        ProjectView { placement: self.placement, network: self.network@ }
    }
}

/// The view of what `run` returns.
pub open spec fn project_result(r: Result<Project, Error>) -> Result<ProjectView, ErrorView> {
    match r {
        Ok(project) => Ok(project@),
        Err(e) => Err(e@),
    }
}

/// The network of the project: the one selected, or the default network
/// where none can be selected.
pub open spec fn network_of(args: network::ArgsView, saved: Map<Seq<char>, NetworkView>)
    -> NetworkView {
    match network::resolved(args, saved) {
        Ok(selected) => selected,
        Err(_) => NetworkView {
            rpc_url: "https://rpc-futurenet.stellar.org:443"@,
            network_passphrase: "Test SDF Future Network ; October 2022"@,
        },
    }
}

/// The project for an output directory that is a file or not, and exists or not.
pub open spec fn project(
    output_dir: Seq<char>,
    args: network::ArgsView,
    saved: Map<Seq<char>, NetworkView>,
    output_is_file: bool,
    output_exists: bool,
) -> Result<ProjectView, ErrorView> {
    if output_is_file {
        Err(ErrorView::IsFile(output_dir))
    } else {
        Ok(
            ProjectView {
                placement: if output_exists {
                    Placement::UnderContractName
                } else {
                    Placement::OutputDir
                },
                network: network_of(args, saved),
            },
        )
    }
}

impl Cmd {
    /// Where the specification is read from: the wasm binary where one is
    /// given, else the network.
    pub fn spec_source(&self) -> (r: SpecSource)
        ensures
            r@ == (match view_of(self.wasm) {
                Some(path) => SpecSourceView::Wasm(path),
                None => SpecSourceView::Contract(self.contract_id@),
            }),
    {
        match &self.wasm {
            Some(path) => SpecSource::Wasm(path.clone()),
            None => SpecSource::Contract(self.contract_id.clone()),
        }
    }

    /// Decides the project. `output_is_file` and `output_exists` say what is
    /// at the output directory's path now.
    pub fn run(&self, locator: &ConfigLocator, output_is_file: bool, output_exists: bool) -> (r:
        Result<Project, Error>)
        ensures
            project_result(r) == project(
                self.output_dir@,
                self.network@,
                locator.networks(),
                output_is_file,
                output_exists,
            ),
    {
        if output_is_file {
            return Err(Error::IsFile(self.output_dir.clone()));
        }
        let placement = if output_exists {
            Placement::UnderContractName
        } else {
            Placement::OutputDir
        };
        let network = match self.network.get(locator) {
            Ok(selected) => selected,
            Err(_) => Network::futurenet(),
        };
        Ok(Project { placement, network })
    }
}

} // verus!
