use vstd::prelude::*;

use crate::error::{misuse, ErrorModel, JavaError};
use crate::text::{contains_char, replace_char, replaced, views};

verus! {

/// How a virtual machine is to be started.
#[derive(Debug)]
pub struct JvmConfig {
    class_path: Option<String>,
    options: Vec<String>,
}

/// The mathematical content of a [`JvmConfig`].
pub struct ConfigModel {
    pub class_path: Option<Seq<char>>,
    pub options: Seq<Seq<char>>,
}

impl View for JvmConfig {
    type V = ConfigModel;

    closed spec fn view(&self) -> ConfigModel {
        ConfigModel {
            class_path: match self.class_path {
                Some(s) => Some(s@),
                None => None,
            },
            options: views(self.options@),
        }
    }
}

/// The options a virtual machine is started with: the given ones in order, and the
/// class path behind them.
pub open spec fn start_options(c: ConfigModel) -> Seq<Seq<char>> {
    match c.class_path {
        Some(cp) => c.options.push("-Djava.class.path="@ + cp),
        None => c.options,
    }
}

impl Default for JvmConfig {
    fn default() -> (c: Self)
        ensures
            c@ == (ConfigModel { class_path: None, options: Seq::empty() }),
    {
        let c = JvmConfig { class_path: None, options: Vec::new() };
        assert(c@.options =~= Seq::empty());
        c
    }
}

impl JvmConfig {
    /// A configuration without a class path and without options.
    pub fn new() -> (c: Self)
        ensures
            c@ == (ConfigModel { class_path: None, options: Seq::empty() }),
    {
        JvmConfig::default()
    }

    /// Sets the class path, in place of any that was set before.
    pub fn class_path(self, class_path: String) -> (c: Self)
        ensures
            c@ == (ConfigModel { class_path: Some(class_path@), options: self@.options }),
    {
        JvmConfig { class_path: Some(class_path), options: self.options }
    }

    /// Adds an option behind those that were added before.
    pub fn option(self, option: String) -> (c: Self)
        ensures
            c@ == (ConfigModel {
                class_path: self@.class_path,
                options: self@.options.push(option@),
            }),
    {
        let mut options = self.options;
        let ghost before = options@;
        options.push(option);
        assert(views(options@) =~= views(before).push(option@));
        JvmConfig { class_path: self.class_path, options }
    }

    /// The options to start the virtual machine with, in the order they are given in.
    pub fn start_options(self) -> (options: Vec<String>)
        ensures
            views(options@) == start_options(self@),
    {
        let mut options = self.options;
        if let Some(cp) = &self.class_path {
            let mut option = "-Djava.class.path=".to_owned();
            option.push_str(cp.as_str());
            let ghost before = options@;
            options.push(option);
            assert(views(options@) =~= views(before).push(option@));
        }
        options
    }
}

/// The class name with slashes, as lookups take it.
pub open spec fn normal_class_name(name: Seq<char>) -> Result<Seq<char>, ErrorModel> {
    if name.len() == 0 {
        Err(misuse("class name must not be empty"@))
    } else if name.contains('/') {
        Ok(name)
    } else {
        Ok(replaced(name, '.', '/'))
    }
}

/// The class name with slashes: a name that has a slash is kept as it is.
pub fn normalize_class_name(name: &str) -> (r: Result<String, JavaError>)
    ensures
        match r {
            Ok(s) => normal_class_name(name@) == Ok::<Seq<char>, ErrorModel>(s@),
            Err(e) => normal_class_name(name@) == Err::<Seq<char>, ErrorModel>(e@),
        },
{
    if name.is_empty() {
        return Err(JavaError::InvalidArgument("class name must not be empty"));
    }
    if contains_char(name, '/') {
        Ok(name.to_owned())
    } else {
        Ok(replace_char(name, '.', '/'))
    }
}

/// The error where there is no virtual machine yet.
pub fn not_initialized() -> (e: JavaError)
    ensures
        e@ == misuse(
            "the JVM is not initialized — create a Java instance with `Java::builder().build()?` first, or wrap the `&mut jni::Env` your native method receives with `Java::from_env`"@,
        ),
{
    JavaError::InvalidArgument(
        "the JVM is not initialized — create a Java instance with `Java::builder().build()?` first, or wrap the `&mut jni::Env` your native method receives with `Java::from_env`",
    )
}

/// Checks a class path before a loader is made for it: it has an entry, and every
/// entry exists. `exists[i]` says whether the entry at `i` does.
pub fn check_class_path(exists: &Vec<bool>) -> (r: Result<(), JavaError>)
    ensures
        match r {
            Ok(()) => exists@.len() > 0 && forall|i: int| 0 <= i < exists@.len() ==> exists@[i],
            Err(e) => e@ == (if exists@.len() == 0 {
                misuse(
                    "class path must not be empty — pass at least one jar or class directory"@,
                )
            } else {
                misuse(
                    "class path entry does not exist; pass the path of an existing jar file or class directory"@,
                )
            }) && !(exists@.len() > 0 && forall|i: int| 0 <= i < exists@.len() ==> exists@[i]),
        },
{
    if exists.len() == 0 {
        return Err(
            JavaError::InvalidArgument(
                "class path must not be empty — pass at least one jar or class directory",
            ),
        );
    }
    let mut i: usize = 0;
    while i < exists.len()
        invariant
            i <= exists@.len(),
            exists@.len() > 0,
            forall|k: int| 0 <= k < i ==> exists@[k],
        decreases exists@.len() - i,
    {
        if !exists[i] {
            return Err(
                JavaError::InvalidArgument(
                    "class path entry does not exist; pass the path of an existing jar file or class directory",
                ),
            );
        }
        i += 1;
    }
    Ok(())
}

/// The options of a virtual machine are the given ones in their order, and the class path is
/// one more behind them.
pub proof fn options_keep_their_order(c: ConfigModel, cp: Seq<char>, i: int)
    ensures
        c.class_path is None ==> start_options(c) == c.options,
        c.class_path == Some(cp) ==> {
            &&& start_options(c).len() == c.options.len() + 1
            &&& start_options(c).last() == "-Djava.class.path="@ + cp
        },
        0 <= i < c.options.len() ==> start_options(c)[i] == c.options[i],
{
}

/// A class is looked up under its name with slashes: every dot becomes one, unless the name
/// has a slash already; only the empty name is refused.
pub proof fn classes_are_looked_up_by_name(name: Seq<char>, i: int)
    ensures
        normal_class_name(name) is Err <==> name.len() == 0,
        name.len() > 0 && name.contains('/') ==> normal_class_name(name) == Ok::<
            Seq<char>,
            ErrorModel,
        >(name),
        name.len() > 0 && !name.contains('/') ==> {
            &&& normal_class_name(name)->Ok_0.len() == name.len()
            &&& 0 <= i < name.len() ==> normal_class_name(name)->Ok_0[i] == (if name[i] == '.' {
                '/'
            } else {
                name[i]
            })
        },
{
}

}
