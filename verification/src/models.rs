use vstd::prelude::*;

verus! {

/// A package of the Nix package collection.
#[derive(Debug, Clone)]
pub struct Package {
    pub attribute: String,
    pub pname: String,
    pub version: String,
    pub description: Option<String>,
}

/// The mathematical value of a [`Package`].
pub struct PackageView {
    pub attribute: Seq<char>,
    pub pname: Seq<char>,
    pub version: Seq<char>,
    pub description: Option<Seq<char>>,
}

impl View for Package {
    type V = PackageView;

    open spec fn view(&self) -> PackageView {
        PackageView {
            attribute: self.attribute@,
            pname: self.pname@,
            version: self.version@,
            description: self.description.deep_view(),
        }
    }
}

impl DeepView for Package {
    type V = PackageView;

    open spec fn deep_view(&self) -> PackageView {
        self@
    }
}

/// A NixOS configuration option.
///
/// `default` holds the option's default value as compact JSON text.
#[derive(Debug, Clone)]
pub struct NixosOption {
    pub path: String,
    pub option_type: Option<String>,
    pub description: Option<String>,
    pub default: Option<String>,
}

/// The mathematical value of a [`NixosOption`].
pub struct NixosOptionView {
    pub path: Seq<char>,
    pub option_type: Option<Seq<char>>,
    pub description: Option<Seq<char>>,
    pub default: Option<Seq<char>>,
}

impl View for NixosOption {
    type V = NixosOptionView;

    open spec fn view(&self) -> NixosOptionView {
        NixosOptionView {
            path: self.path@,
            option_type: self.option_type.deep_view(),
            description: self.description.deep_view(),
            default: self.default.deep_view(),
        }
    }
}

impl DeepView for NixosOption {
    type V = NixosOptionView;

    open spec fn deep_view(&self) -> NixosOptionView {
        self@
    }
}

/// The metadata that Nix reports for one package: the record of one entry
/// of `nix search --json`, and the record that the package evaluation prints.
#[derive(Debug)]
pub struct PackageMetadata {
    pub pname: String,
    pub version: String,
    pub description: Option<String>,
}

/// The mathematical value of a [`PackageMetadata`].
pub struct PackageMetadataView {
    pub pname: Seq<char>,
    pub version: Seq<char>,
    pub description: Option<Seq<char>>,
}

impl View for PackageMetadata {
    type V = PackageMetadataView;

    open spec fn view(&self) -> PackageMetadataView {
        PackageMetadataView {
            pname: self.pname@,
            version: self.version@,
            description: self.description.deep_view(),
        }
    }
}

impl DeepView for PackageMetadata {
    type V = PackageMetadataView;

    open spec fn deep_view(&self) -> PackageMetadataView {
        self@
    }
}

/// The package named by `attribute`, with the metadata Nix reported for it.
pub open spec fn package_of(attribute: Seq<char>, meta: PackageMetadataView) -> PackageView {
    PackageView {
        attribute: attribute,
        pname: meta.pname,
        version: meta.version,
        description: meta.description,
    }
}

/// Arguments of the `search_packages` tool.
#[derive(Debug)]
pub struct SearchPackagesRequest {
    /// Package name or search query.
    pub query: String,
}

/// Arguments of the `get_package` tool.
#[derive(Debug)]
pub struct GetPackageRequest {
    /// Nix package attribute, for example "ripgrep".
    pub attribute: String,
}

/// Arguments of the `search_options` tool.
#[derive(Debug)]
pub struct SearchOptionsRequest {
    /// Search query for NixOS option paths, for example "postgresql".
    pub query: String,
}

/// Arguments of the `get_option` tool.
#[derive(Debug)]
pub struct GetOptionRequest {
    /// NixOS option path, for example "services.postgresql.enable".
    pub path: String,
}

/// Arguments of the `inspect_flake` tool.
#[derive(Debug)]
pub struct InspectFlakeRequest {
    /// Flake reference, for example "nixpkgs" or "github:owner/repo".
    pub reference: String,
}

} // verus!
