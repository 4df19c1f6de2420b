//! The numbers of the graphics API that the core works with, read from the
//! `ash` bindings: the result codes that it tells apart, and the sample
//! count flags.

use vstd::prelude::*;

verus! {

/// What `ash::vk::Result::as_raw` gives for `ash::vk::Result::SUCCESS`, the
/// code of a command that completed successfully: 0.
#[verifier::external_body]
pub(crate) fn success_code() -> (code: i32)
    ensures
        code == 0,
{
    ash::vk::Result::SUCCESS.as_raw()
}

/// What `ash::vk::Result::as_raw` gives for
/// `ash::vk::Result::SUBOPTIMAL_KHR`, the code by which a swapchain reports
/// that it no longer matches the surface exactly: 1000001003.
#[verifier::external_body]
pub(crate) fn suboptimal_code() -> (code: i32)
    ensures
        code == 1_000_001_003,
{
    ash::vk::Result::SUBOPTIMAL_KHR.as_raw()
}

/// What `ash::vk::Result::as_raw` gives for
/// `ash::vk::Result::ERROR_OUT_OF_DATE_KHR`, the code by which a swapchain
/// reports that it can no longer present to the surface: -1000001004.
#[verifier::external_body]
pub(crate) fn out_of_date_code() -> (code: i32)
    ensures
        code == -1_000_001_004,
{
    ash::vk::Result::ERROR_OUT_OF_DATE_KHR.as_raw()
}

/// What `ash::vk::SampleCountFlags::as_raw` gives for
/// `ash::vk::SampleCountFlags::TYPE_1`, one sample per pixel: 1.
#[verifier::external_body]
pub(crate) fn sample_count_1() -> (bits: u32)
    ensures
        bits == 1,
{
    ash::vk::SampleCountFlags::TYPE_1.as_raw()
}

/// What `ash::vk::SampleCountFlags::as_raw` gives for
/// `ash::vk::SampleCountFlags::TYPE_2`, two samples per pixel: 2.
#[verifier::external_body]
pub(crate) fn sample_count_2() -> (bits: u32)
    ensures
        bits == 2,
{
    ash::vk::SampleCountFlags::TYPE_2.as_raw()
}

/// What `ash::vk::SampleCountFlags::as_raw` gives for
/// `ash::vk::SampleCountFlags::TYPE_4`, four samples per pixel: 4.
#[verifier::external_body]
pub(crate) fn sample_count_4() -> (bits: u32)
    ensures
        bits == 4,
{
    ash::vk::SampleCountFlags::TYPE_4.as_raw()
}

/// What `ash::vk::SampleCountFlags::as_raw` gives for
/// `ash::vk::SampleCountFlags::TYPE_8`, eight samples per pixel: 8.
#[verifier::external_body]
pub(crate) fn sample_count_8() -> (bits: u32)
    ensures
        bits == 8,
{
    ash::vk::SampleCountFlags::TYPE_8.as_raw()
}

} // verus!
