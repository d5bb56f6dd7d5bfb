//! Names and text that the generated package is made of.

use vstd::prelude::*;
use crate::text::join;

verus! {

/// Version of the *windows-rs* crate to be used. This version is used in the
/// `[dependencies]` table of the cargo package, as well as in the *bindings* crate.
pub const WINDOWS_RS_VERSION: &'static str = "0.18.0";

/// File name of the Rust toolchain configuration.
pub const RUST_TOOLCHAIN_TOML_FILENAME: &'static str = "rust-toolchain.toml";

/// Directory of the default cargo configuration.
pub const CARGO_CONFIG_DIR: &'static str = ".cargo";

/// File name of the default cargo configuration.
pub const CARGO_CONFIG_TOML_FILENAME: &'static str = "config.toml";

/// Directory of the package's assets.
pub const ASSETS_DIR: &'static str = "Assets";

/// File name of the store logo.
pub const STORE_LOGO_PNG_FILENAME: &'static str = "StoreLogo.png";

/// File name of the splash screen.
pub const SPLASH_SCREEN_PNG_FILENAME: &'static str = "SplashScreen.scale-200.png";

/// File name of the small square logo.
pub const SQUARE_44_LOGO_PNG_FILENAME: &'static str = "Square44x44Logo.scale-200.png";

/// File name of the medium square logo.
pub const SQUARE_150_LOGO_PNG_FILENAME: &'static str = "Square150x150Logo.scale-200.png";

/// Directory of the templates that feed the build system. The root build script picks
/// them up, adjusts them as needed, and copies them to `OUT_DIR`.
pub const TEMPLATES_DIR: &'static str = "templates";

/// File name of the application manifest template.
pub const APPX_MANIFEST_TEMPLATE_FILENAME: &'static str = "AppxManifest.xml";

/// File name of the file mapping template.
pub const FILE_MAPPINGS_TEMPLATE_FILENAME: &'static str = "FileMapping.ini";

/// File name of the build script.
pub const BUILD_RS_FILENAME: &'static str = "build.rs";

/// Directory of the build system in the package.
pub const BUILD_DIR: &'static str = ".build";

/// File name of the build script's root in [`BUILD_DIR`].
pub const BUILD_MAIN_RS_FILENAME: &'static str = "main.rs";

/// File name of what the build script shares with this tool, in [`BUILD_DIR`].
pub const BUILD_SHARED_RS_FILENAME: &'static str = "shared.rs";

/// File name of a binary crate root.
pub const MAIN_RS_FILENAME: &'static str = "main.rs";

/// File name of a cargo manifest.
pub const CARGO_TOML_FILENAME: &'static str = "Cargo.toml";

/// File name of a library crate root.
pub const LIB_RS_FILENAME: &'static str = "lib.rs";

/// Directory of a crate's sources.
pub const SRC_DIR: &'static str = "src";

/// Package metadata table used by the build system and this tool.
///
/// The text is appended to the existing *Cargo.toml* file. Prior to doing that,
/// placeholders need to be replaced. The placeholders allow the actual values to be
/// shared between this tool and the build script it generates. The text is kept in the
/// parts between its placeholders; [`package_metadata_init`] puts it together.

/// Package metadata: the build dependencies and the start of the metadata table, up to the package identity name.
pub const METADATA_HEAD: &'static str = r#"
[build-dependencies]
toml = "0.5.8"
cargo-uwp = "0.2.0"


# Metadata driving the build system. Once created, you can freely fill in and change the
# required entries, and have the build system take it from there.

[package.metadata.appxmanifest]
# The following entries relate to the package identity. They are available through the
# [Microsoft Partner Center](https://partner.microsoft.com) dashboard, once you have
# registered a product name. Go to Products -> <product name> -> Product management ->
# Product Identity to find the respective information.

# (String, required) The package name: The value can be found under the key
# "Package/Identity/Name".
"#;

/// Package metadata: the text between the package identity name and the package identity publisher.
pub const METADATA_BEFORE_IDENTITY_PUBLISHER: &'static str = r#"

# (String, required) The package publisher: The value can be found under the key
# "Package/Identity/Publisher".
"#;

/// Package metadata: the text between the package identity publisher and the publisher display name.
pub const METADATA_BEFORE_PUBLISHER_DISPLAY_NAME: &'static str = r#"

# (String, optional) The package version: A string of four period-delimited numeric
# values following the pattern "<Major>.<Minor>.<Build>.<Revision>". This is the public-
# facing version, that is displayed in the Microsoft Store. It is also used to name
# binary artifacts generated by the build system.
# When missing, this value is substituted with the "version" entry of the [package]
# table, with the <Revision> field defaulting to 0.
# package-identity-version = "0.0.0.0"


# The following entry controls whether to target Windows 10 Mobile.

# (String, optional) The phone product ID: A string representing the GUID of the Windows
# 10 Mobile product. It is required when targeting Windows 10 Mobile.
# When missing, no packages targeting Windows 10 Mobile are generated.
# package-phoneidentity-productid = "00000000-0000-0000-0000-000000000000"


# The next two entries designate public-facing properties of the application. Either one
# is displayed in the Microsoft Store.

# (String, optional) The package display name: This property must match the application
# name as registered in the Microsoft Partner Center. When missing, this value is
# substituted with the "name" entry of the [package] table.
# package-properties-displayname = "<app name>"

# (String, required) The package publisher display name: This property must match the
# publisher display name under which you plan to publish an application in the Microsoft
# Store. Depending on your Microsoft Partner Center registration this information can be
# found under Account settings -> Organization profile -> Legal -> Contact info.
"#;

/// Package metadata: the text between the publisher display name and the application display name.
pub const METADATA_BEFORE_VISUAL_DISPLAY_NAME: &'static str = r#"


# Public facing aspects of an application package.
# See [uap:VisualElements](https://docs.microsoft.com/en-us/uwp/schemas/appxpackage/uapmanifestschema/element-uap-visualelements)

# (String, required) A friendly name for the app that can be displayed to users.
"#;

/// Package metadata: the text between the application display name and the application description.
pub const METADATA_BEFORE_VISUAL_DESCRIPTION: &'static str = r#"

# (String, required) The description of the app.
"#;

/// Package metadata: the end of the metadata table.
pub const METADATA_TAIL: &'static str = r#"
"#;


/// Placeholders and default values used by the text above: each placeholder is replaced
/// by its `KEY = "DEFAULT"` line, the keys and defaults being those the build script
/// shares with this tool.
///
/// Placeholder of the package identity name in the package metadata.
pub const PACKAGE_IDENTITY_NAME_PLACEHOLDER: &'static str = "$package-identity-name$";

/// Placeholder of the package identity publisher in the package metadata.
pub const PACKAGE_IDENTITY_PUBLISHER_PLACEHOLDER: &'static str = "$package-identity-publisher$";

/// Placeholder of the publisher display name in the package metadata.
pub const PACKAGE_PUBLISHER_DISPLAY_NAME_PLACEHOLDER: &'static str =
    "$package-properties-publisherdisplayname$";

/// Placeholder of the application display name in the package metadata.
pub const PACKAGE_VISUAL_DISPLAY_NAME_PLACEHOLDER: &'static str =
    "$package-applications-visualelements-displayname$";

/// Placeholder of the application description in the package metadata.
pub const PACKAGE_VISUAL_DESCRIPTION_PLACEHOLDER: &'static str =
    "$package-applications-visualelements-description$";

/// Path of the bindings crate, relative to the package root.
pub const BINDINGS_CRATE_PATH: &'static str = "bindings";

/// Placeholder that gets replaced by [`WINDOWS_RS_VERSION`] when the bindings crate's
/// manifest is copied from its template.
pub const WINDOWS_RS_VERSION_PLACEHOLDER: &'static str = "$windows-rs-version$";


/// The pieces of the package metadata: the parts between the placeholders, and the
/// placeholders, in order.
pub open spec fn package_metadata_pieces() -> Seq<Seq<char>> {
    seq![
        METADATA_HEAD@,
        PACKAGE_IDENTITY_NAME_PLACEHOLDER@,
        METADATA_BEFORE_IDENTITY_PUBLISHER@,
        PACKAGE_IDENTITY_PUBLISHER_PLACEHOLDER@,
        METADATA_BEFORE_PUBLISHER_DISPLAY_NAME@,
        PACKAGE_PUBLISHER_DISPLAY_NAME_PLACEHOLDER@,
        METADATA_BEFORE_VISUAL_DISPLAY_NAME@,
        PACKAGE_VISUAL_DISPLAY_NAME_PLACEHOLDER@,
        METADATA_BEFORE_VISUAL_DESCRIPTION@,
        PACKAGE_VISUAL_DESCRIPTION_PLACEHOLDER@,
        METADATA_TAIL@,
    ]
}

/// The package metadata text, with its placeholders.
pub open spec fn package_metadata_init() -> Seq<char> {
    join(package_metadata_pieces())
}

/// The package metadata text, with its placeholders.
pub fn package_metadata_init_text() -> (r: String)
    ensures
        r@ == package_metadata_init(),
{
    let mut r = String::from_str(METADATA_HEAD);
    r.append(PACKAGE_IDENTITY_NAME_PLACEHOLDER);
    r.append(METADATA_BEFORE_IDENTITY_PUBLISHER);
    r.append(PACKAGE_IDENTITY_PUBLISHER_PLACEHOLDER);
    r.append(METADATA_BEFORE_PUBLISHER_DISPLAY_NAME);
    r.append(PACKAGE_PUBLISHER_DISPLAY_NAME_PLACEHOLDER);
    r.append(METADATA_BEFORE_VISUAL_DISPLAY_NAME);
    r.append(PACKAGE_VISUAL_DISPLAY_NAME_PLACEHOLDER);
    r.append(METADATA_BEFORE_VISUAL_DESCRIPTION);
    r.append(PACKAGE_VISUAL_DESCRIPTION_PLACEHOLDER);
    r.append(METADATA_TAIL);
    proof {
        reveal_with_fuel(join, 12);
        let p = package_metadata_pieces();
        assert(r@ =~= p[0] + (p[1] + (p[2] + (p[3] + (p[4] + (p[5] + (p[6] + (p[7] + (p[8] + (p[9] + (p[10] + Seq::<char>::empty())))))))))));
    }
    r
}


/// The placeholders of the package metadata, in order.
pub open spec fn metadata_placeholders() -> Seq<Seq<char>> {
    seq![
        PACKAGE_IDENTITY_NAME_PLACEHOLDER@,
        PACKAGE_IDENTITY_PUBLISHER_PLACEHOLDER@,
        PACKAGE_PUBLISHER_DISPLAY_NAME_PLACEHOLDER@,
        PACKAGE_VISUAL_DISPLAY_NAME_PLACEHOLDER@,
        PACKAGE_VISUAL_DESCRIPTION_PLACEHOLDER@,
    ]
}

/// The facts about the package metadata's text that substituting its placeholders
/// rests on: no part between the placeholders holds a `$`, every part before a
/// placeholder ends a line and every part after one starts a new line, so that each
/// placeholder stands on a line of its own, and each placeholder is `$`, a name without `$`, and
/// `$`, differing early from every other placeholder.
pub proof fn lemma_package_metadata_layout()
    ensures
        forall|i: int| 0 <= i < 11 && i % 2 == 0 ==> !(#[trigger] package_metadata_pieces()[i]).contains('$'),
        forall|i: int| 0 < i < 11 && i % 2 == 0 ==> (#[trigger] package_metadata_pieces()[i]).len() > 0 && package_metadata_pieces()[i][0] == '\n',
        forall|i: int| 0 <= i < 10 && i % 2 == 0 ==> (#[trigger] package_metadata_pieces()[i]).len() > 0
            && package_metadata_pieces()[i][package_metadata_pieces()[i].len() - 1] == '\n',
        forall|k: int| 0 <= k < 5 ==> package_metadata_pieces()[2 * k + 1] == #[trigger] metadata_placeholders()[k],
        forall|k: int| 0 <= k < 5 ==> {
            let p = #[trigger] metadata_placeholders()[k];
            &&& p.len() >= 2
            &&& p[0] == '$'
            &&& p[1] == 'p'
            &&& p[p.len() - 1] == '$'
            &&& forall|i: int| 0 < i < p.len() - 1 ==> #[trigger] p[i] != '$'
        },
        forall|j: int, k: int| #![trigger metadata_placeholders()[j], metadata_placeholders()[k]] 0 <= j < 5 && 0 <= k < 5 && j != k ==> exists|d: int|
            0 <= d < metadata_placeholders()[j].len() && d < metadata_placeholders()[k].len()
            && #[trigger] metadata_placeholders()[j][d] != #[trigger] metadata_placeholders()[k][d],
{
    reveal_strlit(r#"
[build-dependencies]
toml = "0.5.8"
cargo-uwp = "0.2.0"


# Metadata driving the build system. Once created, you can freely fill in and change the
# required entries, and have the build system take it from there.

[package.metadata.appxmanifest]
# The following entries relate to the package identity. They are available through the
# [Microsoft Partner Center](https://partner.microsoft.com) dashboard, once you have
# registered a product name. Go to Products -> <product name> -> Product management ->
# Product Identity to find the respective information.

# (String, required) The package name: The value can be found under the key
# "Package/Identity/Name".
"#);
    reveal_strlit(r#"

# (String, required) The package publisher: The value can be found under the key
# "Package/Identity/Publisher".
"#);
    reveal_strlit(r#"

# (String, optional) The package version: A string of four period-delimited numeric
# values following the pattern "<Major>.<Minor>.<Build>.<Revision>". This is the public-
# facing version, that is displayed in the Microsoft Store. It is also used to name
# binary artifacts generated by the build system.
# When missing, this value is substituted with the "version" entry of the [package]
# table, with the <Revision> field defaulting to 0.
# package-identity-version = "0.0.0.0"


# The following entry controls whether to target Windows 10 Mobile.

# (String, optional) The phone product ID: A string representing the GUID of the Windows
# 10 Mobile product. It is required when targeting Windows 10 Mobile.
# When missing, no packages targeting Windows 10 Mobile are generated.
# package-phoneidentity-productid = "00000000-0000-0000-0000-000000000000"


# The next two entries designate public-facing properties of the application. Either one
# is displayed in the Microsoft Store.

# (String, optional) The package display name: This property must match the application
# name as registered in the Microsoft Partner Center. When missing, this value is
# substituted with the "name" entry of the [package] table.
# package-properties-displayname = "<app name>"

# (String, required) The package publisher display name: This property must match the
# publisher display name under which you plan to publish an application in the Microsoft
# Store. Depending on your Microsoft Partner Center registration this information can be
# found under Account settings -> Organization profile -> Legal -> Contact info.
"#);
    reveal_strlit(r#"


# Public facing aspects of an application package.
# See [uap:VisualElements](https://docs.microsoft.com/en-us/uwp/schemas/appxpackage/uapmanifestschema/element-uap-visualelements)

# (String, required) A friendly name for the app that can be displayed to users.
"#);
    reveal_strlit(r#"

# (String, required) The description of the app.
"#);
    reveal_strlit(r#"
"#);
    reveal_strlit("$package-identity-name$");
    reveal_strlit("$package-identity-publisher$");
    reveal_strlit("$package-properties-publisherdisplayname$");
    reveal_strlit("$package-applications-visualelements-displayname$");
    reveal_strlit("$package-applications-visualelements-description$");
    let pieces = package_metadata_pieces();
    let ph = metadata_placeholders();
    assert forall|i: int| 0 <= i < 11 && i % 2 == 0 implies !(#[trigger] pieces[i]).contains('$') by {
        assert(forall|m: int| 0 <= m < pieces[i].len() ==> pieces[i][m] != '$');
    }
    assert forall|j: int, k: int| #![trigger ph[j], ph[k]] 0 <= j < 5 && 0 <= k < 5 && j != k implies exists|d: int|
        0 <= d < ph[j].len() && d < ph[k].len() && #[trigger] ph[j][d] != #[trigger] ph[k][d] by {
        if j == 0 && k == 1 { assert(ph[0][18] != ph[1][18]); }
        if j == 0 && k == 2 { assert(ph[0][9] != ph[2][9]); }
        if j == 0 && k == 3 { assert(ph[0][9] != ph[3][9]); }
        if j == 0 && k == 4 { assert(ph[0][9] != ph[4][9]); }
        if j == 1 && k == 0 { assert(ph[1][18] != ph[0][18]); }
        if j == 1 && k == 2 { assert(ph[1][9] != ph[2][9]); }
        if j == 1 && k == 3 { assert(ph[1][9] != ph[3][9]); }
        if j == 1 && k == 4 { assert(ph[1][9] != ph[4][9]); }
        if j == 2 && k == 0 { assert(ph[2][9] != ph[0][9]); }
        if j == 2 && k == 1 { assert(ph[2][9] != ph[1][9]); }
        if j == 2 && k == 3 { assert(ph[2][9] != ph[3][9]); }
        if j == 2 && k == 4 { assert(ph[2][9] != ph[4][9]); }
        if j == 3 && k == 0 { assert(ph[3][9] != ph[0][9]); }
        if j == 3 && k == 1 { assert(ph[3][9] != ph[1][9]); }
        if j == 3 && k == 2 { assert(ph[3][9] != ph[2][9]); }
        if j == 3 && k == 4 { assert(ph[3][38] != ph[4][38]); }
        if j == 4 && k == 0 { assert(ph[4][9] != ph[0][9]); }
        if j == 4 && k == 1 { assert(ph[4][9] != ph[1][9]); }
        if j == 4 && k == 2 { assert(ph[4][9] != ph[2][9]); }
        if j == 4 && k == 3 { assert(ph[4][38] != ph[3][38]); }
    }
}

} // verus!
