//! Vulkan instance feature negotiation.
//!
//! The program needs a handful of instance extensions to present to a
//! window surface, and the configuration may request optional debugging
//! layers. Negotiation reconciles three sets: the features the platform
//! reports as `available`, the features the program cannot run without
//! (`required`), and the features the configuration `requested`. The
//! selected set is `required + (available * requested)`: required features
//! are always included, and requested features are honored only where the
//! platform has them.

use vstd::prelude::*;
use crate::text::str_eq;

verus! {

/// The optional Vulkan instance layers this program knows how to request.
#[derive(Debug, Clone, PartialEq, Eq, Structural)]
pub struct InstanceLayers {
    pub khronos_validation: bool,
    pub mesa_device_select: bool,
    pub mesa_overlay: bool,
    pub _unbuildable: Unbuildable,
}

/// Keeps `InstanceLayers` from being built with a plain struct literal
/// outside this crate, so that adding a layer field cannot be missed by a
/// caller.
#[derive(Debug, Copy, Clone, PartialEq, Eq, Structural)]
#[non_exhaustive]
pub struct Unbuildable(pub bool);

impl InstanceLayers {
    /// The set with every layer absent.
    pub open spec fn spec_none() -> InstanceLayers {
        InstanceLayers {
            khronos_validation: false,
            mesa_device_select: false,
            mesa_overlay: false,
            _unbuildable: Unbuildable(false),
        }
    }

    pub fn none() -> (r: Self)
        ensures
            r == InstanceLayers::spec_none(),
    {
        Self {
            khronos_validation: false,
            mesa_device_select: false,
            mesa_overlay: false,
            _unbuildable: Unbuildable(false),
        }
    }

    /// The layers the platform offers, judged from the layer names it
    /// lists: a layer is available exactly when its name occurs.
    pub fn available(layer_names: &Vec<String>) -> (r: Self)
        ensures
            r.khronos_validation == (exists|i: int|
                0 <= i < layer_names@.len() && layer_names@[i]@ == "VK_LAYER_KHRONOS_validation"@),
            r.mesa_device_select == (exists|i: int|
                0 <= i < layer_names@.len() && layer_names@[i]@ == "VK_LAYER_MESA_device_select"@),
            r.mesa_overlay == (exists|i: int|
                0 <= i < layer_names@.len() && layer_names@[i]@ == "VK_LAYER_MESA_overlay"@),
    {
        let mut layers = Self::none();
        let n = layer_names.len();
        let mut j: usize = 0;
        while j < n
            invariant
                n == layer_names@.len(),
                0 <= j <= n,
                layers.khronos_validation == (exists|i: int|
                    0 <= i < j && layer_names@[i]@ == "VK_LAYER_KHRONOS_validation"@),
                layers.mesa_device_select == (exists|i: int|
                    0 <= i < j && layer_names@[i]@ == "VK_LAYER_MESA_device_select"@),
                layers.mesa_overlay == (exists|i: int|
                    0 <= i < j && layer_names@[i]@ == "VK_LAYER_MESA_overlay"@),
            decreases n - j,
        {
            proof {
                reveal_strlit("VK_LAYER_KHRONOS_validation");
                reveal_strlit("VK_LAYER_MESA_device_select");
                reveal_strlit("VK_LAYER_MESA_overlay");
                assert("VK_LAYER_KHRONOS_validation"@[9] != "VK_LAYER_MESA_device_select"@[9]);
                assert("VK_LAYER_KHRONOS_validation"@[9] != "VK_LAYER_MESA_overlay"@[9]);
                assert("VK_LAYER_MESA_device_select"@[14] != "VK_LAYER_MESA_overlay"@[14]);
            }
            let name: &String = &layer_names[j];
            if str_eq(name.as_str(), "VK_LAYER_KHRONOS_validation") {
                layers.khronos_validation = true;
            } else if str_eq(name.as_str(), "VK_LAYER_MESA_device_select") {
                layers.mesa_device_select = true;
            } else if str_eq(name.as_str(), "VK_LAYER_MESA_overlay") {
                layers.mesa_overlay = true;
            }
            j = j + 1;
        }
        layers
    }

    /// No layer is required: the program runs without any of them.
    pub fn required() -> (r: Self)
        ensures
            r == InstanceLayers::spec_none(),
    {
        Self::none()
    }

    /// The names of the layers present in this set, in a fixed order.
    pub open spec fn spec_names(l: InstanceLayers) -> Seq<Seq<char>> {
        (if l.khronos_validation {
            seq!["VK_LAYER_KHRONOS_validation"@]
        } else {
            Seq::empty()
        }) + (if l.mesa_device_select {
            seq!["VK_LAYER_MESA_device_select"@]
        } else {
            Seq::empty()
        }) + (if l.mesa_overlay {
            seq!["VK_LAYER_MESA_overlay"@]
        } else {
            Seq::empty()
        })
    }

    pub fn into_names(&self) -> (r: Vec<&'static str>)
        ensures
            r@.map_values(|s: &'static str| s@) == InstanceLayers::spec_names(*self),
    {
        let mut names: Vec<&'static str> = Vec::new();
        if self.khronos_validation {
            names.push("VK_LAYER_KHRONOS_validation");
        }
        if self.mesa_device_select {
            names.push("VK_LAYER_MESA_device_select");
        }
        if self.mesa_overlay {
            names.push("VK_LAYER_MESA_overlay");
        }
        proof {
            assert(names@.map_values(|s: &'static str| s@) =~= InstanceLayers::spec_names(
                *self,
            ));
        }
        names
    }

    /// The layers in `self` but not in `other`.
    pub open spec fn spec_difference(a: InstanceLayers, b: InstanceLayers) -> InstanceLayers {
        InstanceLayers {
            khronos_validation: a.khronos_validation && !b.khronos_validation,
            mesa_device_select: a.mesa_device_select && !b.mesa_device_select,
            mesa_overlay: a.mesa_overlay && !b.mesa_overlay,
            _unbuildable: Unbuildable(false),
        }
    }

    pub fn difference(&self, other: &Self) -> (r: Self)
        ensures
            r == InstanceLayers::spec_difference(*self, *other),
    {
        Self {
            khronos_validation: self.khronos_validation && !other.khronos_validation,
            mesa_device_select: self.mesa_device_select && !other.mesa_device_select,
            mesa_overlay: self.mesa_overlay && !other.mesa_overlay,
            _unbuildable: Unbuildable(false),
        }
    }

    /// The layers in both `self` and `other`.
    pub open spec fn spec_intersection(a: InstanceLayers, b: InstanceLayers) -> InstanceLayers {
        InstanceLayers {
            khronos_validation: a.khronos_validation && b.khronos_validation,
            mesa_device_select: a.mesa_device_select && b.mesa_device_select,
            mesa_overlay: a.mesa_overlay && b.mesa_overlay,
            _unbuildable: Unbuildable(false),
        }
    }

    pub fn intersection(&self, other: &Self) -> (r: Self)
        ensures
            r == InstanceLayers::spec_intersection(*self, *other),
    {
        Self {
            khronos_validation: self.khronos_validation && other.khronos_validation,
            mesa_device_select: self.mesa_device_select && other.mesa_device_select,
            mesa_overlay: self.mesa_overlay && other.mesa_overlay,
            _unbuildable: Unbuildable(false),
        }
    }

    /// The layers in `self` or in `other`.
    pub open spec fn spec_union(a: InstanceLayers, b: InstanceLayers) -> InstanceLayers {
        InstanceLayers {
            khronos_validation: a.khronos_validation || b.khronos_validation,
            mesa_device_select: a.mesa_device_select || b.mesa_device_select,
            mesa_overlay: a.mesa_overlay || b.mesa_overlay,
            _unbuildable: Unbuildable(false),
        }
    }

    pub fn union(&self, other: &Self) -> (r: Self)
        ensures
            r == InstanceLayers::spec_union(*self, *other),
    {
        Self {
            khronos_validation: self.khronos_validation || other.khronos_validation,
            mesa_device_select: self.mesa_device_select || other.mesa_device_select,
            mesa_overlay: self.mesa_overlay || other.mesa_overlay,
            _unbuildable: Unbuildable(false),
        }
    }
}

/// The Vulkan instance extensions this program can ever need: the surface
/// extensions a window system may want, and the two query extensions the
/// windowing layer asks for alongside them. Each field says whether the
/// extension is in the set.
#[derive(Debug, Clone, PartialEq, Eq, Structural)]
pub struct InstanceExtensions {
    pub khr_surface: bool,
    pub khr_xlib_surface: bool,
    pub khr_xcb_surface: bool,
    pub khr_wayland_surface: bool,
    pub khr_android_surface: bool,
    pub khr_win32_surface: bool,
    pub mvk_ios_surface: bool,
    pub mvk_macos_surface: bool,
    pub khr_get_physical_device_properties2: bool,
    pub khr_get_surface_capabilities2: bool,
}

impl InstanceExtensions {
    /// The set with every extension absent.
    pub open spec fn spec_none() -> InstanceExtensions {
        InstanceExtensions {
            khr_surface: false,
            khr_xlib_surface: false,
            khr_xcb_surface: false,
            khr_wayland_surface: false,
            khr_android_surface: false,
            khr_win32_surface: false,
            mvk_ios_surface: false,
            mvk_macos_surface: false,
            khr_get_physical_device_properties2: false,
            khr_get_surface_capabilities2: false,
        }
    }

    pub fn none() -> (r: Self)
        ensures
            r == InstanceExtensions::spec_none(),
    {
        Self {
            khr_surface: false,
            khr_xlib_surface: false,
            khr_xcb_surface: false,
            khr_wayland_surface: false,
            khr_android_surface: false,
            khr_win32_surface: false,
            mvk_ios_surface: false,
            mvk_macos_surface: false,
            khr_get_physical_device_properties2: false,
            khr_get_surface_capabilities2: false,
        }
    }

    /// The extensions in `self` but not in `other`.
    pub open spec fn spec_difference(
        a: InstanceExtensions,
        b: InstanceExtensions,
    ) -> InstanceExtensions {
        InstanceExtensions {
            khr_surface: a.khr_surface && !b.khr_surface,
            khr_xlib_surface: a.khr_xlib_surface && !b.khr_xlib_surface,
            khr_xcb_surface: a.khr_xcb_surface && !b.khr_xcb_surface,
            khr_wayland_surface: a.khr_wayland_surface && !b.khr_wayland_surface,
            khr_android_surface: a.khr_android_surface && !b.khr_android_surface,
            khr_win32_surface: a.khr_win32_surface && !b.khr_win32_surface,
            mvk_ios_surface: a.mvk_ios_surface && !b.mvk_ios_surface,
            mvk_macos_surface: a.mvk_macos_surface && !b.mvk_macos_surface,
            khr_get_physical_device_properties2: a.khr_get_physical_device_properties2
                && !b.khr_get_physical_device_properties2,
            khr_get_surface_capabilities2: a.khr_get_surface_capabilities2
                && !b.khr_get_surface_capabilities2,
        }
    }

    pub fn difference(&self, other: &Self) -> (r: Self)
        ensures
            r == InstanceExtensions::spec_difference(*self, *other),
    {
        Self {
            khr_surface: self.khr_surface && !other.khr_surface,
            khr_xlib_surface: self.khr_xlib_surface && !other.khr_xlib_surface,
            khr_xcb_surface: self.khr_xcb_surface && !other.khr_xcb_surface,
            khr_wayland_surface: self.khr_wayland_surface && !other.khr_wayland_surface,
            khr_android_surface: self.khr_android_surface && !other.khr_android_surface,
            khr_win32_surface: self.khr_win32_surface && !other.khr_win32_surface,
            mvk_ios_surface: self.mvk_ios_surface && !other.mvk_ios_surface,
            mvk_macos_surface: self.mvk_macos_surface && !other.mvk_macos_surface,
            khr_get_physical_device_properties2: self.khr_get_physical_device_properties2
                && !other.khr_get_physical_device_properties2,
            khr_get_surface_capabilities2: self.khr_get_surface_capabilities2
                && !other.khr_get_surface_capabilities2,
        }
    }

    /// The extensions in both `self` and `other`.
    pub open spec fn spec_intersection(
        a: InstanceExtensions,
        b: InstanceExtensions,
    ) -> InstanceExtensions {
        InstanceExtensions {
            khr_surface: a.khr_surface && b.khr_surface,
            khr_xlib_surface: a.khr_xlib_surface && b.khr_xlib_surface,
            khr_xcb_surface: a.khr_xcb_surface && b.khr_xcb_surface,
            khr_wayland_surface: a.khr_wayland_surface && b.khr_wayland_surface,
            khr_android_surface: a.khr_android_surface && b.khr_android_surface,
            khr_win32_surface: a.khr_win32_surface && b.khr_win32_surface,
            mvk_ios_surface: a.mvk_ios_surface && b.mvk_ios_surface,
            mvk_macos_surface: a.mvk_macos_surface && b.mvk_macos_surface,
            khr_get_physical_device_properties2: a.khr_get_physical_device_properties2
                && b.khr_get_physical_device_properties2,
            khr_get_surface_capabilities2: a.khr_get_surface_capabilities2
                && b.khr_get_surface_capabilities2,
        }
    }

    pub fn intersection(&self, other: &Self) -> (r: Self)
        ensures
            r == InstanceExtensions::spec_intersection(*self, *other),
    {
        Self {
            khr_surface: self.khr_surface && other.khr_surface,
            khr_xlib_surface: self.khr_xlib_surface && other.khr_xlib_surface,
            khr_xcb_surface: self.khr_xcb_surface && other.khr_xcb_surface,
            khr_wayland_surface: self.khr_wayland_surface && other.khr_wayland_surface,
            khr_android_surface: self.khr_android_surface && other.khr_android_surface,
            khr_win32_surface: self.khr_win32_surface && other.khr_win32_surface,
            mvk_ios_surface: self.mvk_ios_surface && other.mvk_ios_surface,
            mvk_macos_surface: self.mvk_macos_surface && other.mvk_macos_surface,
            khr_get_physical_device_properties2: self.khr_get_physical_device_properties2
                && other.khr_get_physical_device_properties2,
            khr_get_surface_capabilities2: self.khr_get_surface_capabilities2
                && other.khr_get_surface_capabilities2,
        }
    }

    /// The extensions in `self` or in `other`.
    pub open spec fn spec_union(
        a: InstanceExtensions,
        b: InstanceExtensions,
    ) -> InstanceExtensions {
        InstanceExtensions {
            khr_surface: a.khr_surface || b.khr_surface,
            khr_xlib_surface: a.khr_xlib_surface || b.khr_xlib_surface,
            khr_xcb_surface: a.khr_xcb_surface || b.khr_xcb_surface,
            khr_wayland_surface: a.khr_wayland_surface || b.khr_wayland_surface,
            khr_android_surface: a.khr_android_surface || b.khr_android_surface,
            khr_win32_surface: a.khr_win32_surface || b.khr_win32_surface,
            mvk_ios_surface: a.mvk_ios_surface || b.mvk_ios_surface,
            mvk_macos_surface: a.mvk_macos_surface || b.mvk_macos_surface,
            khr_get_physical_device_properties2: a.khr_get_physical_device_properties2
                || b.khr_get_physical_device_properties2,
            khr_get_surface_capabilities2: a.khr_get_surface_capabilities2
                || b.khr_get_surface_capabilities2,
        }
    }

    pub fn union(&self, other: &Self) -> (r: Self)
        ensures
            r == InstanceExtensions::spec_union(*self, *other),
    {
        Self {
            khr_surface: self.khr_surface || other.khr_surface,
            khr_xlib_surface: self.khr_xlib_surface || other.khr_xlib_surface,
            khr_xcb_surface: self.khr_xcb_surface || other.khr_xcb_surface,
            khr_wayland_surface: self.khr_wayland_surface || other.khr_wayland_surface,
            khr_android_surface: self.khr_android_surface || other.khr_android_surface,
            khr_win32_surface: self.khr_win32_surface || other.khr_win32_surface,
            mvk_ios_surface: self.mvk_ios_surface || other.mvk_ios_surface,
            mvk_macos_surface: self.mvk_macos_surface || other.mvk_macos_surface,
            khr_get_physical_device_properties2: self.khr_get_physical_device_properties2
                || other.khr_get_physical_device_properties2,
            khr_get_surface_capabilities2: self.khr_get_surface_capabilities2
                || other.khr_get_surface_capabilities2,
        }
    }
}

/// An instance feature set: extensions together with layers.
#[derive(Debug, Clone, PartialEq, Eq, Structural)]
pub struct InstanceFeatures {
    pub extensions: InstanceExtensions,
    pub layers: InstanceLayers,
}

impl InstanceFeatures {
    pub open spec fn spec_none() -> InstanceFeatures {
        InstanceFeatures {
            extensions: InstanceExtensions::spec_none(),
            layers: InstanceLayers::spec_none(),
        }
    }

    pub fn none() -> (r: Self)
        ensures
            r == InstanceFeatures::spec_none(),
    {
        Self { extensions: InstanceExtensions::none(), layers: InstanceLayers::none() }
    }

    pub open spec fn spec_difference(a: InstanceFeatures, b: InstanceFeatures) -> InstanceFeatures {
        InstanceFeatures {
            extensions: InstanceExtensions::spec_difference(a.extensions, b.extensions),
            layers: InstanceLayers::spec_difference(a.layers, b.layers),
        }
    }

    pub fn difference(&self, other: &Self) -> (r: Self)
        ensures
            r == InstanceFeatures::spec_difference(*self, *other),
    {
        Self {
            extensions: self.extensions.difference(&other.extensions),
            layers: self.layers.difference(&other.layers),
        }
    }

    pub open spec fn spec_intersection(
        a: InstanceFeatures,
        b: InstanceFeatures,
    ) -> InstanceFeatures {
        InstanceFeatures {
            extensions: InstanceExtensions::spec_intersection(a.extensions, b.extensions),
            layers: InstanceLayers::spec_intersection(a.layers, b.layers),
        }
    }

    pub fn intersection(&self, other: &Self) -> (r: Self)
        ensures
            r == InstanceFeatures::spec_intersection(*self, *other),
    {
        Self {
            extensions: self.extensions.intersection(&other.extensions),
            layers: self.layers.intersection(&other.layers),
        }
    }

    pub open spec fn spec_union(a: InstanceFeatures, b: InstanceFeatures) -> InstanceFeatures {
        InstanceFeatures {
            extensions: InstanceExtensions::spec_union(a.extensions, b.extensions),
            layers: InstanceLayers::spec_union(a.layers, b.layers),
        }
    }

    pub fn union(&self, other: &Self) -> (r: Self)
        ensures
            r == InstanceFeatures::spec_union(*self, *other),
    {
        Self {
            extensions: self.extensions.union(&other.extensions),
            layers: self.layers.union(&other.layers),
        }
    }

    /// Every feature of `b` is also in `a`.
    pub open spec fn spec_superset(a: InstanceFeatures, b: InstanceFeatures) -> bool {
        InstanceFeatures::spec_difference(b, a) == InstanceFeatures::spec_none()
    }

    pub fn superset(&self, other: &Self) -> (r: bool)
        ensures
            r == InstanceFeatures::spec_superset(*self, *other),
    {
        other.difference(self) == InstanceFeatures::none()
    }
}

/// The outcome of querying the platform: the features it has, paired with
/// the features the program cannot run without. A value of this type
/// witnesses that the required features are available.
#[derive(Debug, Clone, PartialEq, Eq, Structural)]
pub struct QueriedInstanceFeatures {
    pub available: InstanceFeatures,
    pub required: InstanceFeatures,
}

impl QueriedInstanceFeatures {
    /// Reconcile what the platform has with what the program needs. If a
    /// required feature is missing the platform cannot run this program at
    /// all, and the missing features are reported.
    pub fn query(available: InstanceFeatures, required: InstanceFeatures) -> (r: Result<
        Self,
        InstanceFeatures,
    >)
        ensures
            InstanceFeatures::spec_superset(available, required) ==> (r matches Ok(q) && q
                == (QueriedInstanceFeatures { available, required })),
            !InstanceFeatures::spec_superset(available, required) ==> (r matches Err(missing)
                && missing == InstanceFeatures::spec_difference(required, available)),
    {
        if available.superset(&required) {
            Ok(Self { available, required })
        } else {
            Err(required.difference(&available))
        }
    }

    /// The feature set to create the instance with.
    pub open spec fn spec_select(
        q: QueriedInstanceFeatures,
        requested: InstanceFeatures,
    ) -> InstanceFeatures {
        InstanceFeatures::spec_union(
            q.required,
            InstanceFeatures::spec_intersection(q.available, requested),
        )
    }

    pub fn select(&self, requested: &InstanceFeatures) -> (r: InstanceFeatures)
        ensures
            r == QueriedInstanceFeatures::spec_select(*self, *requested),
    {
        self.required.union(&self.available.intersection(requested))
    }
}

/// Required features are always selected, whether or not they were
/// requested: the selected set is a superset of the required set.
pub proof fn lemma_select_includes_required(
    q: QueriedInstanceFeatures,
    requested: InstanceFeatures,
)
    ensures
        InstanceFeatures::spec_superset(
            QueriedInstanceFeatures::spec_select(q, requested),
            q.required,
        ),
{
}

} // verus!
