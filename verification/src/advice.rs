//! Advice for the user: what to do about a component that was not found, and
//! which versions of the components go together.

use crate::probe::Platform;
use vstd::prelude::*;

verus! {

/// What to try on Windows when no device of the vendor is found.
pub const GPU_FIX_WINDOWS: &'static str = r#"💡 NVIDIA GPU Not Found - Possible Fixes:

🔧 Hardware Issues:
   • Ensure NVIDIA GPU is properly seated in PCIe slot
   • Check power connections to GPU (6-pin/8-pin connectors)
   • Verify PSU has sufficient wattage for your GPU

🖥️ Windows Device Manager:
   • Open Device Manager → Display adapters
   • Look for NVIDIA GPU (may show as "Unknown device")
   • Right-click → Update driver

📦 Driver Installation:
   • Download latest drivers from: https://www.nvidia.com/Download/index.aspx
   • Use GeForce Experience for automatic updates
   • Try DDU (Display Driver Uninstaller) if having issues

🛠️ BIOS Settings:
   • Enable PCIe slots in BIOS
   • Set primary display adapter to PCIe (not onboard)
   • Disable integrated graphics if needed"#;

/// What to try on Linux when no device of the vendor is found.
pub const GPU_FIX_LINUX: &'static str = r#"💡 NVIDIA GPU Not Found - Possible Fixes:

🔧 Hardware Issues:
   • Ensure NVIDIA GPU is properly seated in PCIe slot
   • Check power connections to GPU
   • Verify PSU has sufficient wattage

📦 Driver Installation (Ubuntu/Debian):
   • sudo apt update
   • sudo apt install nvidia-driver-535 (or latest version)
   • sudo reboot

📦 Driver Installation (Fedora/RHEL):
   • sudo dnf install akmod-nvidia
   • sudo akmods --force
   • sudo reboot

🔍 Check Hardware Detection:
   • lspci | grep -i nvidia
   • sudo lshw -c display

🛠️ Alternative Installation:
   • Download from: https://www.nvidia.com/Download/index.aspx
   • Install proprietery drivers via distribution's driver manager"#;

/// What to try on macOS when no device of the vendor is found.
pub const GPU_FIX_MACOS: &'static str = r#"💡 NVIDIA GPU Not Found - Possible Fixes:

⚠️  macOS Note:
   • Modern macOS (10.14+) doesn't support NVIDIA GPUs
   • Only older macOS versions with legacy drivers supported

🔧 For Older macOS:
   • Check: https://www.nvidia.com/Download/index.aspx
   • Look for legacy macOS drivers (if available)

🔍 Hardware Check:
   • System Information → Graphics/Displays
   • Terminal: system_profiler SPDisplaysDataType"#;

/// How to install the driver on Windows.
pub const DRIVER_FIX_WINDOWS: &'static str = r#"💡 NVIDIA Driver Not Found - Installation Guide:

📥 Download Options:
   • Official: https://www.nvidia.com/Download/index.aspx
   • GeForce Experience: Automatic driver updates
   • Windows Update: Basic drivers (may be outdated)

🛠️ Installation Steps:
   1. Download appropriate driver for your GPU model
   2. Close all applications
   3. Run installer as Administrator
   4. Choose "Custom (Advanced)" for clean install
   5. Restart computer

🔧 Troubleshooting:
   • Use DDU to completely remove old drivers first
   • Disable Windows automatic driver updates
   • Try NVIDIA Studio drivers for content creation"#;

/// How to install the driver on the other platforms.
pub const DRIVER_FIX_UNIX: &'static str = r#"💡 NVIDIA Driver Not Found - Installation Guide:

📦 Ubuntu/Debian:
   sudo apt update
   sudo apt install nvidia-driver-535
   sudo reboot

📦 Fedora/RHEL:
   sudo dnf install akmod-nvidia
   sudo akmods --force
   sudo reboot

📦 Arch Linux:
   sudo pacman -S nvidia nvidia-utils
   sudo reboot

🔍 Check Installation:
   • nvidia-smi (should show driver version)
   • cat /proc/driver/nvidia/version

🛠️ Alternative Methods:
   • Use distribution's driver manager GUI
   • Download from: https://www.nvidia.com/Download/index.aspx"#;

/// How to install the toolkit on Windows.
pub const TOOLKIT_FIX_WINDOWS: &'static str = r#"💡 CUDA Toolkit Not Found - Installation Guide:

📥 Download CUDA Toolkit:
   • Official: https://developer.nvidia.com/cuda-downloads
   • Choose Windows x86_64 → Version → Installer type

🛠️ Installation Steps:
   1. Download CUDA Toolkit installer
   2. Run as Administrator
   3. Choose "Custom" installation
   4. Select CUDA Toolkit components
   5. Add to PATH: C:\Program Files\NVIDIA GPU Computing Toolkit\CUDA\vX.X\bin

📝 Environment Variables:
   • CUDA_PATH: C:\Program Files\NVIDIA GPU Computing Toolkit\CUDA\vX.X
   • PATH: Add CUDA bin directory

✅ Verify Installation:
   • Open Command Prompt: nvcc --version
   • Should show CUDA compiler version"#;

/// How to install the toolkit on the other platforms.
pub const TOOLKIT_FIX_UNIX: &'static str = r#"💡 CUDA Toolkit Not Found - Installation Guide:

📥 Download Options:
   • Official: https://developer.nvidia.com/cuda-downloads
   • Package manager installation available

📦 Ubuntu/Debian Installation:
   wget https://developer.download.nvidia.com/compute/cuda/repos/ubuntu2004/x86_64/cuda-ubuntu2004.pin
   sudo mv cuda-ubuntu2004.pin /etc/apt/preferences.d/cuda-repository-pin-600
   sudo apt-key adv --fetch-keys https://developer.download.nvidia.com/compute/cuda/repos/ubuntu2004/x86_64/3bf863cc.pub
   sudo add-apt-repository "deb https://developer.download.nvidia.com/compute/cuda/repos/ubuntu2004/x86_64/ /"
   sudo apt update
   sudo apt install cuda-toolkit

📦 Alternative Installation:
   • Download .run file from NVIDIA
   • chmod +x cuda_X.X.X_linux.run
   • sudo ./cuda_X.X.X_linux.run

📝 Environment Setup:
   echo 'export PATH=/usr/local/cuda/bin:$PATH' >> ~/.bashrc
   echo 'export LD_LIBRARY_PATH=/usr/local/cuda/lib64:$LD_LIBRARY_PATH' >> ~/.bashrc
   source ~/.bashrc

✅ Verify: nvcc --version"#;

/// How to install the deep-learning primitives library.
pub const CUDNN_FIX: &'static str = r#"💡 cuDNN Not Found - Installation Guide:

📥 Download cuDNN:
   • Official: https://developer.nvidia.com/cudnn
   • Requires free NVIDIA Developer account
   • Choose version compatible with your CUDA version

🛠️ Windows Installation:
   1. Download cuDNN ZIP archive
   2. Extract to temporary folder
   3. Copy files to CUDA installation directory:
      • bin → C:\Program Files\NVIDIA GPU Computing Toolkit\CUDA\vX.X\bin
      • include → C:\Program Files\NVIDIA GPU Computing Toolkit\CUDA\vX.X\include  
      • lib → C:\Program Files\NVIDIA GPU Computing Toolkit\CUDA\vX.X\lib

🛠️ Linux Installation:
   1. Download cuDNN tar file
   2. Extract: tar -xzvf cudnn-X.X-linux-x64-vX.X.X.tgz
   3. Copy files:
      sudo cp cuda/include/cudnn*.h /usr/local/cuda/include
      sudo cp cuda/lib64/libcudnn* /usr/local/cuda/lib64
      sudo chmod a+r /usr/local/cuda/include/cudnn*.h /usr/local/cuda/lib64/libcudnn*

📦 Alternative (Conda):
   conda install cudnn

✅ Verify Installation:
   • Check: /usr/local/cuda/include/cudnn_version.h (Linux)
   • Python: import torch; print(torch.backends.cudnn.version())"#;

/// How to install TensorFlow.
pub const TENSORFLOW_FIX: &'static str = r#"💡 TensorFlow Not Found - Installation Guide:

📦 CPU Version (Recommended for beginners):
   pip install tensorflow

📦 GPU Version (Requires CUDA + cuDNN):
   pip install tensorflow[and-cuda]

🐍 Python Environment Setup:
   # Create virtual environment (recommended)
   python -m venv tensorflow_env
   # Windows: tensorflow_env\Scripts\activate
   # Linux/Mac: source tensorflow_env/bin/activate
   pip install --upgrade pip
   pip install tensorflow

📦 Conda Installation:
   conda install tensorflow
   # or for GPU support:
   conda install tensorflow-gpu

🔧 GPU Requirements:
   • NVIDIA GPU with CUDA Compute Capability 3.5+
   • CUDA 11.2+ and cuDNN 8.1+
   • Compatible NVIDIA drivers

✅ Verify Installation:
   python -c "import tensorflow as tf; print(tf.__version__)"
   python -c "import tensorflow as tf; print(tf.config.list_physical_devices('GPU'))"

📚 Official Guide: https://www.tensorflow.org/install"#;

/// How to install PyTorch.
pub const PYTORCH_FIX: &'static str = r#"💡 PyTorch Not Found - Installation Guide:

📦 Quick Installation:
   pip install torch torchvision torchaudio

🔧 Custom Installation (Recommended):
   Visit: https://pytorch.org/get-started/locally/
   Select your preferences:
   • OS: Windows/Linux/Mac
   • Package: Pip/Conda
   • Python version
   • CUDA version (if using GPU)

📦 CPU Only:
   pip install torch torchvision torchaudio --index-url https://download.pytorch.org/whl/cpu

📦 GPU (CUDA 11.8):
   pip install torch torchvision torchaudio --index-url https://download.pytorch.org/whl/cu118

📦 GPU (CUDA 12.1):
   pip install torch torchvision torchaudio --index-url https://download.pytorch.org/whl/cu121

🐍 Conda Installation:
   conda install pytorch torchvision torchaudio pytorch-cuda=11.8 -c pytorch -c nvidia

✅ Verify Installation:
   python -c "import torch; print(torch.__version__)"
   python -c "import torch; print(torch.cuda.is_available())"

📚 Official Guide: https://pytorch.org/get-started/locally/"#;

/// Which versions of the driver, the toolkit, the frameworks and the
/// interpreter go together.
pub const COMPATIBILITY_MATRIX: &'static str = r#"=== 🔗 Version Compatibility Matrix ===

📊 CUDA ↔ Driver Compatibility:
   CUDA 12.3+  → Driver 545.23+
   CUDA 12.2   → Driver 535.86+
   CUDA 12.1   → Driver 530.30+
   CUDA 12.0   → Driver 525.60+
   CUDA 11.8   → Driver 520.61+
   CUDA 11.7   → Driver 515.43+
   CUDA 11.6   → Driver 510.47+

🔥 TensorFlow ↔ CUDA Compatibility:
   TensorFlow 2.15+ → CUDA 12.3, cuDNN 8.9
   TensorFlow 2.14  → CUDA 12.2, cuDNN 8.9
   TensorFlow 2.13  → CUDA 11.8, cuDNN 8.6
   TensorFlow 2.12  → CUDA 11.8, cuDNN 8.6
   TensorFlow 2.11  → CUDA 11.2, cuDNN 8.1
   TensorFlow 2.10  → CUDA 11.2, cuDNN 8.1

🚀 PyTorch ↔ CUDA Compatibility:
   PyTorch 2.1+   → CUDA 11.8, 12.1
   PyTorch 2.0    → CUDA 11.7, 11.8
   PyTorch 1.13   → CUDA 11.6, 11.7
   PyTorch 1.12   → CUDA 11.3, 11.6
   PyTorch 1.11   → CUDA 11.1, 11.3

🐍 Python Version Requirements:
   TensorFlow 2.15+ → Python 3.9-3.12
   TensorFlow 2.11+ → Python 3.7-3.11
   PyTorch 2.1+     → Python 3.8-3.11
   PyTorch 1.13+    → Python 3.7-3.11

💡 Compute Capability Requirements:
   TensorFlow 2.11+ → CC 3.5+
   PyTorch 1.13+    → CC 3.7+
   CUDA 12.0+       → CC 5.0+ (optimal)

📝 Recommended Combinations:
   🔥 Latest Stable: CUDA 12.2 + cuDNN 8.9 + TensorFlow 2.14 + PyTorch 2.1
   ⚡ High Performance: CUDA 11.8 + cuDNN 8.6 + TensorFlow 2.13 + PyTorch 2.0
   🛡️  Long Term Support: CUDA 11.2 + cuDNN 8.1 + TensorFlow 2.10 + PyTorch 1.13
"#;

/// The advice for a machine on which no device of the vendor was found.
pub open spec fn nvidia_gpu_fix(platform: Platform) -> Seq<char> {
    match platform {
        Platform::Windows => GPU_FIX_WINDOWS@,
        Platform::Linux => GPU_FIX_LINUX@,
        Platform::MacOs => GPU_FIX_MACOS@,
    }
}

/// The advice for a machine on which the driver was not found.
pub open spec fn nvidia_driver_fix(platform: Platform) -> Seq<char> {
    match platform {
        Platform::Windows => DRIVER_FIX_WINDOWS@,
        _ => DRIVER_FIX_UNIX@,
    }
}

/// The advice for a machine on which the toolkit was not found.
pub open spec fn cuda_toolkit_fix(platform: Platform) -> Seq<char> {
    match platform {
        Platform::Windows => TOOLKIT_FIX_WINDOWS@,
        _ => TOOLKIT_FIX_UNIX@,
    }
}

/// What to try when no device of the vendor is found: the advice for the
/// platform.
pub fn suggest_nvidia_gpu_fix(platform: Platform) -> (out: String)
    ensures
        out@ == nvidia_gpu_fix(platform),
{
    match platform {
        Platform::Windows => GPU_FIX_WINDOWS.to_string(),
        Platform::Linux => GPU_FIX_LINUX.to_string(),
        Platform::MacOs => GPU_FIX_MACOS.to_string(),
    }
}

/// How to install the driver: the guide for Windows there, and the guide for
/// package managers everywhere else.
pub fn suggest_nvidia_driver_fix(platform: Platform) -> (out: String)
    ensures
        out@ == nvidia_driver_fix(platform),
{
    match platform {
        Platform::Windows => DRIVER_FIX_WINDOWS.to_string(),
        _ => DRIVER_FIX_UNIX.to_string(),
    }
}

/// How to install the toolkit: the guide for Windows there, and the guide for
/// package managers everywhere else.
pub fn suggest_cuda_toolkit_fix(platform: Platform) -> (out: String)
    ensures
        out@ == cuda_toolkit_fix(platform),
{
    match platform {
        Platform::Windows => TOOLKIT_FIX_WINDOWS.to_string(),
        _ => TOOLKIT_FIX_UNIX.to_string(),
    }
}

/// How to install the deep-learning primitives library.
pub fn suggest_cudnn_fix() -> (out: String)
    ensures
        out@ == CUDNN_FIX@,
{
    CUDNN_FIX.to_string()
}

/// How to install TensorFlow.
pub fn suggest_tensorflow_fix() -> (out: String)
    ensures
        out@ == TENSORFLOW_FIX@,
{
    TENSORFLOW_FIX.to_string()
}

/// How to install PyTorch.
pub fn suggest_pytorch_fix() -> (out: String)
    ensures
        out@ == PYTORCH_FIX@,
{
    PYTORCH_FIX.to_string()
}

/// The table of versions that go together, as the text to show.
pub fn show_compatibility_matrix() -> (out: String)
    ensures
        out@ == COMPATIBILITY_MATRIX@,
{
    COMPATIBILITY_MATRIX.to_string()
}

} // verus!
